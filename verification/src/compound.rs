//! Compound requests: how operations are put together and how their replies are taken apart.
use crate::error::{Error, ErrorView, Result};
use crate::ops::{ArgOp, OperationId, ResOp};
use std::collections::VecDeque;
use vstd::prelude::*;

verus! {

/// Text that `{:?}` prints for a reply.
pub uninterp spec fn res_op_debug(op: ResOp) -> Seq<char>;

/// Formats a reply with `{:?}`, through the standard library's `format`.
///
/// Claims only that the text depends on the reply and nothing else; what the text says is not
/// stated.
#[verifier::external_body]
fn debug_res_op(op: &ResOp) -> (text: String)
    ensures
        text@ == res_op_debug(*op),
{
    format!("{op:?}")
}

/// What is said of a reply `got` that stands where a reply to `expected` should.
pub open spec fn unexpected_reply(expected: OperationId, got: ResOp) -> Seq<char> {
    "expected "@ + expected.spec_name() + ", got "@ + res_op_debug(got)
}

/// What is wrong with `reply` as the answer to `expected`, if anything is.
pub open spec fn reply_failure(expected: OperationId, reply: ResOp) -> Option<ErrorView> {
    if reply.operation() != expected {
        Some(ErrorView::CompoundResponseMismatch(unexpected_reply(expected, reply)))
    } else {
        reply.failure()
    }
}

/// The first thing that is wrong with `replies` as the answers to `expected`, if anything is.
/// Replies beyond the expected ones do not matter.
pub open spec fn replies_failure(expected: Seq<OperationId>, replies: Seq<ResOp>) -> Option<
    ErrorView,
>
    decreases expected.len(),
{
    if expected.len() == 0 {
        None
    } else if replies.len() == 0 {
        Some(ErrorView::CompoundResponseMismatch("too few replies"@))
    } else if reply_failure(expected[0], replies[0]) is Some {
        reply_failure(expected[0], replies[0])
    } else {
        replies_failure(expected.skip(1), replies.skip(1))
    }
}

/// The replies that are left once those to `expected` have been read, up to and with the first
/// one that fails.
pub open spec fn replies_left(expected: Seq<OperationId>, replies: Seq<ResOp>) -> Seq<ResOp>
    decreases expected.len(),
{
    if expected.len() == 0 || replies.len() == 0 {
        replies
    } else if reply_failure(expected[0], replies[0]) is Some {
        replies.skip(1)
    } else {
        replies_left(expected.skip(1), replies.skip(1))
    }
}

/// Kinds of the operations in `ops`.
pub open spec fn operations_of(ops: Seq<ArgOp>) -> Seq<OperationId> {
    ops.map_values(|op: ArgOp| op.operation())
}

/// Operations that are sent together and answered together.
pub trait CompoundRequest: Sized {
    /// What the replies come to.
    type Response;

    /// Shape of the request, kept to take the replies apart.
    type Geometry;

    /// The operations, in the order in which they run.
    spec fn operations(self) -> Seq<ArgOp>;

    /// Whether `geometry` is the shape of this request.
    spec fn has_shape(self, geometry: Self::Geometry) -> bool;

    /// The kinds of reply that a request of this shape waits for.
    spec fn expected(geometry: Self::Geometry) -> Seq<OperationId>;

    /// Whether `response` is what `replies` hold, one successful reply to each operation.
    spec fn answered(
        geometry: Self::Geometry,
        replies: Seq<ResOp>,
        response: Self::Response,
    ) -> bool;

    /// A request of the shape `geometry` waits for one reply to each of its operations.
    proof fn lemma_shape(self, geometry: Self::Geometry)
        requires
            self.has_shape(geometry),
        ensures
            Self::expected(geometry) == operations_of(self.operations()),
    ;

    /// Turns the request into its operations and its shape.
    fn into_arg_array(self) -> (parts: (Vec<ArgOp>, Self::Geometry))
        ensures
            parts.0@ == self.operations(),
            self.has_shape(parts.1),
            Self::expected(parts.1) == operations_of(self.operations()),
    ;

    /// Takes the replies to a request of shape `geometry` from the front of `res_array`.
    fn process_reply(res_array: &mut VecDeque<ResOp>, geometry: Self::Geometry) -> (response:
        Result<Self::Response>)
        ensures
            final(res_array)@ == replies_left(Self::expected(geometry), old(res_array)@),
            match response {
                Ok(response) => {
                    &&& replies_failure(Self::expected(geometry), old(res_array)@) is None
                    &&& Self::answered(
                        geometry,
                        old(res_array)@.take(Self::expected(geometry).len() as int),
                        response,
                    )
                },
                Err(e) => replies_failure(Self::expected(geometry), old(res_array)@) == Some(e@),
            },
    ;
}

/// One operation with its arguments.
pub trait CompoundOp: Sized {
    /// What the operation gives.
    type Res;

    /// Which operation this is.
    spec fn spec_operation() -> OperationId;

    /// The operation with its arguments.
    spec fn arg_op(self) -> ArgOp;

    /// Whether `reply` is a successful reply to this operation that gives `res`.
    spec fn gives(reply: ResOp, res: Self::Res) -> bool;

    proof fn lemma_arg_op(self)
        ensures
            self.arg_op().operation() == Self::spec_operation(),
    ;

    fn operation() -> (id: OperationId)
        ensures
            id == Self::spec_operation(),
    ;

    fn into_arg_op(self) -> (op: ArgOp)
        ensures
            op == self.arg_op(),
    ;

    /// The outcome that `reply` tells of, or `reply` itself if it answers another operation.
    fn take_reply(reply: ResOp) -> (taken: std::result::Result<Result<Self::Res>, ResOp>)
        ensures
            match taken {
                Ok(Ok(res)) => {
                    &&& reply.operation() == Self::spec_operation()
                    &&& reply.failure() is None
                    &&& Self::gives(reply, res)
                },
                Ok(Err(e)) => {
                    &&& reply.operation() == Self::spec_operation()
                    &&& reply.failure() == Some(e@)
                },
                Err(other) => other == reply && reply.operation() != Self::spec_operation(),
            },
    ;
}

impl<T: CompoundOp> CompoundRequest for T {
    type Response = T::Res;

    type Geometry = ();

    open spec fn operations(self) -> Seq<ArgOp> {
        seq![self.arg_op()]
    }

    open spec fn has_shape(self, geometry: ()) -> bool {
        true
    }

    open spec fn expected(geometry: ()) -> Seq<OperationId> {
        seq![T::spec_operation()]
    }

    open spec fn answered(geometry: (), replies: Seq<ResOp>, response: T::Res) -> bool {
        T::gives(replies[0], response)
    }

    proof fn lemma_shape(self, geometry: ()) {
        self.lemma_arg_op();
        assert(operations_of(self.operations()) =~= seq![T::spec_operation()]);
    }

    fn into_arg_array(self) -> (parts: (Vec<ArgOp>, ())) {
        proof {
            self.lemma_shape(());
        }
        let mut arg_array: Vec<ArgOp> = Vec::new();
        arg_array.push(self.into_arg_op());
        (arg_array, ())
    }

    fn process_reply(res_array: &mut VecDeque<ResOp>, geometry: ()) -> (response: Result<T::Res>) {
        let ghost replies = res_array@;
        let ghost expected = seq![T::spec_operation()];
        proof {
            reveal_with_fuel(replies_failure, 2);
            reveal_with_fuel(replies_left, 2);
        }
        match res_array.pop_front() {
            None => Err(Error::CompoundResponseMismatch("too few replies".to_owned())),
            Some(op) => {
                assert(replies.skip(1) =~= res_array@);
                match T::take_reply(op) {
                    Ok(res) => res,
                    Err(op) => {
                        let mut text = "expected ".to_owned();
                        text.append(T::operation().name());
                        text.append(", got ");
                        text.append(debug_res_op(&op).as_str());
                        Err(Error::CompoundResponseMismatch(text))
                    },
                }
            },
        }
    }
}

/// Reading the replies to `first` and then those to `second` is reading the replies to both.
pub proof fn lemma_replies_concat(
    first: Seq<OperationId>,
    second: Seq<OperationId>,
    replies: Seq<ResOp>,
)
    ensures
        replies_failure(first, replies) is Some ==> {
            &&& replies_failure(first + second, replies) == replies_failure(first, replies)
            &&& replies_left(first + second, replies) == replies_left(first, replies)
        },
        replies_failure(first, replies) is None ==> {
            &&& replies_failure(first + second, replies) == replies_failure(
                second,
                replies_left(first, replies),
            )
            &&& replies_left(first + second, replies) == replies_left(
                second,
                replies_left(first, replies),
            )
        },
    decreases first.len(),
{
    if first.len() == 0 {
        assert(first + second =~= second);
    } else if replies.len() > 0 {
        assert((first + second).skip(1) =~= first.skip(1) + second);
        lemma_replies_concat(first.skip(1), second, replies.skip(1));
    }
}

/// Replies that answer everything expected are used up from the front, one for each operation.
pub proof fn lemma_replies_used(expected: Seq<OperationId>, replies: Seq<ResOp>)
    requires
        replies_failure(expected, replies) is None,
    ensures
        expected.len() <= replies.len(),
        replies_left(expected, replies) == replies.skip(expected.len() as int),
    decreases expected.len(),
{
    if expected.len() > 0 {
        lemma_replies_used(expected.skip(1), replies.skip(1));
    }
    assert(replies_left(expected, replies) =~= replies.skip(expected.len() as int));
}

/// The operations of `items`, one item after the other.
pub open spec fn operations_all<T: CompoundRequest>(items: Seq<T>) -> Seq<ArgOp>
    decreases items.len(),
{
    if items.len() == 0 {
        Seq::empty()
    } else {
        operations_all(items.drop_last()) + items.last().operations()
    }
}

/// The kinds of reply that requests of the shapes `geometry` wait for, one after the other.
pub open spec fn expected_all<T: CompoundRequest>(geometry: Seq<T::Geometry>) -> Seq<OperationId>
    decreases geometry.len(),
{
    if geometry.len() == 0 {
        Seq::empty()
    } else {
        expected_all::<T>(geometry.drop_last()) + T::expected(geometry.last())
    }
}

/// Whether `geometry` holds the shapes of `items`, one for each item.
pub open spec fn have_shapes<T: CompoundRequest>(
    items: Seq<T>,
    geometry: Seq<T::Geometry>,
) -> bool {
    &&& geometry.len() == items.len()
    &&& forall|i: int| 0 <= i < items.len() ==> (#[trigger] items[i]).has_shape(geometry[i])
}

/// Items of the shapes `geometry` wait for one reply to each of their operations.
proof fn lemma_shapes<T: CompoundRequest>(items: Seq<T>, geometry: Seq<T::Geometry>)
    requires
        have_shapes(items, geometry),
    ensures
        expected_all::<T>(geometry) == operations_of(operations_all(items)),
    decreases items.len(),
{
    if items.len() > 0 {
        let before = items.drop_last();
        assert forall|i: int| 0 <= i < before.len() implies (#[trigger] before[i]).has_shape(
            geometry.drop_last()[i],
        ) by {
            assert(before[i] == items[i]);
        }
        lemma_shapes(before, geometry.drop_last());
        assert(items[items.len() - 1].has_shape(geometry[items.len() - 1]));
        items.last().lemma_shape(geometry.last());
        lemma_operations_of_both(operations_all(before), items.last().operations());
    }
    assert(expected_all::<T>(geometry) =~= operations_of(operations_all(items)));
}

/// The kinds of two lists of operations, one behind the other, stand one behind the other.
pub(crate) proof fn lemma_operations_of_both(first: Seq<ArgOp>, second: Seq<ArgOp>)
    ensures
        operations_of(first + second) == operations_of(first) + operations_of(second),
{
    assert(operations_of(first + second) =~= operations_of(first) + operations_of(second));
}

/// Joining two vectors of requests joins their operations, their shapes, and the kinds of reply
/// that they wait for.
pub proof fn lemma_joined_vectors<T: CompoundRequest>(
    first: Seq<T>,
    second: Seq<T>,
    first_geometry: Seq<T::Geometry>,
    second_geometry: Seq<T::Geometry>,
)
    requires
        have_shapes(first, first_geometry),
        have_shapes(second, second_geometry),
    ensures
        operations_all(first + second) == operations_all(first) + operations_all(second),
        have_shapes(first + second, first_geometry + second_geometry),
        expected_all::<T>(first_geometry + second_geometry) == expected_all::<T>(first_geometry)
            + expected_all::<T>(second_geometry),
{
    let both = first + second;
    let geometry = first_geometry + second_geometry;
    lemma_operations_joined(first, second);
    assert forall|i: int| 0 <= i < both.len() implies (#[trigger] both[i]).has_shape(
        geometry[i],
    ) by {
        if i < first.len() {
            assert(both[i] == first[i]);
        } else {
            assert(both[i] == second[i - first.len()]);
        }
    }
    lemma_expected_split::<T>(geometry, first.len() as int);
    assert(geometry.take(first.len() as int) =~= first_geometry);
    assert(geometry.skip(first.len() as int) =~= second_geometry);
}

/// The shapes of two joined vectors of requests are the shapes of the first and behind them
/// those of the second.
pub proof fn lemma_shapes_of_joined_vectors<T: CompoundRequest>(
    first: Seq<T>,
    second: Seq<T>,
    geometry: Seq<T::Geometry>,
)
    requires
        have_shapes(first + second, geometry),
    ensures
        have_shapes(first, geometry.take(first.len() as int)),
        have_shapes(second, geometry.skip(first.len() as int)),
{
    let both = first + second;
    assert forall|i: int| 0 <= i < first.len() implies (#[trigger] first[i]).has_shape(
        geometry.take(first.len() as int)[i],
    ) by {
        assert(both[i] == first[i]);
    }
    assert forall|i: int| 0 <= i < second.len() implies (#[trigger] second[i]).has_shape(
        geometry.skip(first.len() as int)[i],
    ) by {
        assert(both[i + first.len()] == second[i]);
    }
}

proof fn lemma_operations_joined<T: CompoundRequest>(first: Seq<T>, second: Seq<T>)
    ensures
        operations_all(first + second) == operations_all(first) + operations_all(second),
    decreases second.len(),
{
    if second.len() == 0 {
        assert(first + second =~= first);
    } else {
        assert((first + second).drop_last() =~= first + second.drop_last());
        lemma_operations_joined(first, second.drop_last());
    }
    assert(operations_all(first + second) =~= operations_all(first) + operations_all(second));
}

/// Items that are one operation each are sent as those operations.
pub proof fn lemma_operations_of_ops<T: CompoundOp>(items: Seq<T>)
    ensures
        operations_all(items) == items.map_values(|item: T| item.arg_op()),
    decreases items.len(),
{
    if items.len() > 0 {
        lemma_operations_of_ops(items.drop_last());
    }
    assert(operations_all(items) =~= items.map_values(|item: T| item.arg_op()));
}

/// Where, among the replies to requests of the shapes `geometry`, those to request `i` start.
pub open spec fn reply_start<T: CompoundRequest>(geometry: Seq<T::Geometry>, i: int) -> int {
    expected_all::<T>(geometry.take(i)).len() as int
}

proof fn lemma_expected_step<T: CompoundRequest>(geometry: Seq<T::Geometry>, i: int)
    requires
        0 <= i < geometry.len(),
    ensures
        expected_all::<T>(geometry.take(i + 1)) == expected_all::<T>(geometry.take(i))
            + T::expected(geometry[i]),
{
    assert(geometry.take(i + 1).drop_last() =~= geometry.take(i));
}

proof fn lemma_expected_split<T: CompoundRequest>(geometry: Seq<T::Geometry>, i: int)
    requires
        0 <= i <= geometry.len(),
    ensures
        expected_all::<T>(geometry) == expected_all::<T>(geometry.take(i)) + expected_all::<T>(
            geometry.skip(i),
        ),
    decreases geometry.len(),
{
    if i == geometry.len() {
        assert(geometry.take(i) =~= geometry);
        assert(geometry.skip(i) =~= Seq::empty());
        assert(expected_all::<T>(geometry) =~= expected_all::<T>(geometry.take(i))
            + expected_all::<T>(geometry.skip(i)));
    } else {
        lemma_expected_split::<T>(geometry.drop_last(), i);
        assert(geometry.drop_last().take(i) =~= geometry.take(i));
        assert(geometry.drop_last().skip(i) =~= geometry.skip(i).drop_last());
        assert(expected_all::<T>(geometry) =~= expected_all::<T>(geometry.take(i))
            + expected_all::<T>(geometry.skip(i)));
    }
}

impl<T: CompoundRequest> CompoundRequest for Vec<T> {
    type Response = Vec<T::Response>;

    type Geometry = Vec<T::Geometry>;

    open spec fn operations(self) -> Seq<ArgOp> {
        operations_all(self@)
    }

    open spec fn has_shape(self, geometry: Vec<T::Geometry>) -> bool {
        have_shapes(self@, geometry@)
    }

    open spec fn expected(geometry: Vec<T::Geometry>) -> Seq<OperationId> {
        expected_all::<T>(geometry@)
    }

    open spec fn answered(
        geometry: Vec<T::Geometry>,
        replies: Seq<ResOp>,
        response: Vec<T::Response>,
    ) -> bool {
        &&& response@.len() == geometry@.len()
        &&& forall|i: int|
            0 <= i < geometry@.len() ==> T::answered(
                geometry@[i],
                replies.subrange(
                    reply_start::<T>(geometry@, i),
                    reply_start::<T>(geometry@, i + 1),
                ),
                #[trigger] response@[i],
            )
    }

    proof fn lemma_shape(self, geometry: Vec<T::Geometry>) {
        lemma_shapes(self@, geometry@);
    }

    fn into_arg_array(self) -> (parts: (Vec<ArgOp>, Vec<T::Geometry>)) {
        let mut arg_ret: Vec<ArgOp> = Vec::new();
        let mut geo_ret: Vec<T::Geometry> = Vec::new();
        let ghost items = self@;
        for e in it: self
            invariant
                it.seq() == items,
                arg_ret@ == operations_all(items.take(it.index())),
                have_shapes(items.take(it.index()), geo_ret@),
        {
            let ghost n = it.index();
            let (mut v, g) = e.into_arg_array();
            arg_ret.append(&mut v);
            geo_ret.push(g);
            assert(items.take(n + 1).drop_last() =~= items.take(n));
        }
        assert(items.take(items.len() as int) =~= items);
        proof {
            lemma_shapes(items, geo_ret@);
        }
        (arg_ret, geo_ret)
    }

    fn process_reply(res_array: &mut VecDeque<ResOp>, geometry: Vec<T::Geometry>) -> (response:
        Result<Vec<T::Response>>) {
        let ghost replies = res_array@;
        let ghost shapes = geometry@;
        let mut ret: Vec<T::Response> = Vec::new();
        assert(expected_all::<T>(shapes.take(0)) =~= Seq::empty());
        for geo in it: geometry
            invariant
                replies == old(res_array)@,
                shapes == geometry@,
                it.seq() == shapes,
                ret@.len() == it.index(),
                replies_failure(expected_all::<T>(shapes.take(it.index())), replies) is None,
                res_array@ == replies_left(expected_all::<T>(shapes.take(it.index())), replies),
                forall|i: int|
                    0 <= i < it.index() ==> T::answered(
                        shapes[i],
                        replies.subrange(
                            reply_start::<T>(shapes, i),
                            reply_start::<T>(shapes, i + 1),
                        ),
                        #[trigger] ret@[i],
                    ),
        {
            let ghost n = it.index();
            let ghost done = expected_all::<T>(shapes.take(n));
            let ghost next = T::expected(shapes[n]);
            let ghost rest = expected_all::<T>(shapes.skip(n + 1));
            let ghost before = res_array@;
            proof {
                lemma_replies_used(done, replies);
                lemma_expected_step::<T>(shapes, n);
                lemma_expected_split::<T>(shapes, n + 1);
                lemma_replies_concat(done, next, replies);
                lemma_replies_concat(done + next, rest, replies);
            }
            match T::process_reply(res_array, geo) {
                Ok(response) => {
                    proof {
                        lemma_replies_used(next, before);
                        assert(before.take(next.len() as int) =~= replies.subrange(
                            reply_start::<T>(shapes, n),
                            reply_start::<T>(shapes, n + 1),
                        ));
                    }
                    ret.push(response);
                },
                Err(e) => {
                    return Err(e);
                },
            }
        }
        proof {
            let total = expected_all::<T>(shapes);
            assert(shapes.take(shapes.len() as int) =~= shapes);
            lemma_replies_used(total, replies);
            assert forall|i: int| 0 <= i < shapes.len() implies T::answered(
                shapes[i],
                replies.take(total.len() as int).subrange(
                    reply_start::<T>(shapes, i),
                    reply_start::<T>(shapes, i + 1),
                ),
                #[trigger] ret@[i],
            ) by {
                lemma_expected_step::<T>(shapes, i);
                lemma_expected_split::<T>(shapes, i + 1);
                assert(replies.take(total.len() as int).subrange(
                    reply_start::<T>(shapes, i),
                    reply_start::<T>(shapes, i + 1),
                ) =~= replies.subrange(
                    reply_start::<T>(shapes, i),
                    reply_start::<T>(shapes, i + 1),
                ));
            }
        }
        Ok(ret)
    }
}

/// Turns two requests into the operations of both and their shapes.
pub(crate) fn pair_into_arg_array<A: CompoundRequest, B: CompoundRequest>(a: A, b: B) -> (parts: (
    Vec<ArgOp>,
    A::Geometry,
    B::Geometry,
))
    ensures
        parts.0@ == a.operations() + b.operations(),
        a.has_shape(parts.1),
        b.has_shape(parts.2),
        A::expected(parts.1) + B::expected(parts.2) == operations_of(
            a.operations() + b.operations(),
        ),
{
    let ghost first = a.operations();
    let ghost second = b.operations();
    let (mut a1, g1) = a.into_arg_array();
    let (mut a2, g2) = b.into_arg_array();
    a1.append(&mut a2);
    proof {
        lemma_operations_of_both(first, second);
    }
    (a1, g1, g2)
}

/// Takes the replies to two requests, of shapes `a` and `b`, from the front of `res_array`.
pub(crate) fn pair_process_reply<A: CompoundRequest, B: CompoundRequest>(
    res_array: &mut VecDeque<ResOp>,
    a: A::Geometry,
    b: B::Geometry,
) -> (response: Result<(A::Response, B::Response)>)
    ensures
        final(res_array)@ == replies_left(A::expected(a) + B::expected(b), old(res_array)@),
        match response {
            Ok(response) => {
                let n = A::expected(a).len() as int;
                let m = B::expected(b).len() as int;
                &&& replies_failure(A::expected(a) + B::expected(b), old(res_array)@) is None
                &&& A::answered(a, old(res_array)@.take(n + m).take(n), response.0)
                &&& B::answered(b, old(res_array)@.take(n + m).skip(n), response.1)
            },
            Err(e) => replies_failure(A::expected(a) + B::expected(b), old(res_array)@) == Some(
                e@,
            ),
        },
{
    let ghost replies = res_array@;
    let ghost first = A::expected(a);
    let ghost second = B::expected(b);
    proof {
        lemma_replies_concat(first, second, replies);
    }
    match A::process_reply(res_array, a) {
        Err(e) => Err(e),
        Ok(response_a) => {
            let ghost rest = res_array@;
            match B::process_reply(res_array, b) {
                Err(e) => Err(e),
                Ok(response_b) => {
                    proof {
                        let both = replies.take((first.len() + second.len()) as int);
                        lemma_replies_used(first, replies);
                        lemma_replies_used(second, rest);
                        assert(both.take(first.len() as int) =~= replies.take(first.len() as int));
                        assert(both.skip(first.len() as int) =~= rest.take(second.len() as int));
                    }
                    Ok((response_a, response_b))
                },
            }
        },
    }
}

/// Two requests, of which only what the second one gives is wanted.
pub struct ReturnSecond<A, B>(pub A, pub B);

impl<A: CompoundRequest, B: CompoundRequest> CompoundRequest for ReturnSecond<A, B> {
    type Response = B::Response;

    type Geometry = (A::Geometry, B::Geometry);

    open spec fn operations(self) -> Seq<ArgOp> {
        self.0.operations() + self.1.operations()
    }

    open spec fn has_shape(self, geometry: (A::Geometry, B::Geometry)) -> bool {
        self.0.has_shape(geometry.0) && self.1.has_shape(geometry.1)
    }

    open spec fn expected(geometry: (A::Geometry, B::Geometry)) -> Seq<OperationId> {
        A::expected(geometry.0) + B::expected(geometry.1)
    }

    open spec fn answered(
        geometry: (A::Geometry, B::Geometry),
        replies: Seq<ResOp>,
        response: B::Response,
    ) -> bool {
        B::answered(
            geometry.1,
            replies.skip(A::expected(geometry.0).len() as int),
            response,
        )
    }

    proof fn lemma_shape(self, geometry: (A::Geometry, B::Geometry)) {
        self.0.lemma_shape(geometry.0);
        self.1.lemma_shape(geometry.1);
        lemma_operations_of_both(self.0.operations(), self.1.operations());
    }

    fn into_arg_array(self) -> (parts: (Vec<ArgOp>, (A::Geometry, B::Geometry))) {
        let (arg_array, g1, g2) = pair_into_arg_array(self.0, self.1);
        (arg_array, (g1, g2))
    }

    fn process_reply(
        res_array: &mut VecDeque<ResOp>,
        geometry: (A::Geometry, B::Geometry),
    ) -> (response: Result<B::Response>) {
        match pair_process_reply::<A, B>(res_array, geometry.0, geometry.1) {
            Ok((_, response)) => Ok(response),
            Err(e) => Err(e),
        }
    }
}

} // verus!
