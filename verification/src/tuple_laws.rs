//! What tuples of requests ask for and give, member by member.
//!
//! The law for two members says what the members ask for and give. The law for any other number
//! tells the last member from those before it, which are a tuple again.
use crate::compound::CompoundRequest;
use crate::ops::ResOp;
use vstd::prelude::*;

verus! {

/// Of two members, the second is asked for behind the first, and each gives what the replies to
/// it give.
pub proof fn lemma_tuple_of_2<A: CompoundRequest, B: CompoundRequest>(
    request: (A, B),
    geometry: (A::Geometry, B::Geometry),
    replies: Seq<ResOp>,
    response: (A::Response, B::Response),
)
    ensures
        request.operations() == request.0.operations() + request.1.operations(),
        request.has_shape(geometry) <==> request.0.has_shape(geometry.0) && request.1.has_shape(
            geometry.1,
        ),
        <(A, B) as CompoundRequest>::expected(geometry) == A::expected(geometry.0) + B::expected(
            geometry.1,
        ),
        <(A, B) as CompoundRequest>::answered(geometry, replies, response) <==> {
            let n = A::expected(geometry.0).len() as int;
            &&& A::answered(geometry.0, replies.take(n), response.0)
            &&& B::answered(geometry.1, replies.skip(n), response.1)
        },
{
}

/// The last of 3 members is asked for behind the others, and gives what the replies behind
/// those to the others give.
pub proof fn lemma_tuple_of_3<
    A: CompoundRequest,
    B: CompoundRequest,
    C: CompoundRequest,
>(
    request: (A, B, C),
    geometry: (A::Geometry, B::Geometry, C::Geometry),
    replies: Seq<ResOp>,
    response: (A::Response, B::Response, C::Response),
)
    ensures
        ({
            let before = (request.0, request.1);
            let shape = (geometry.0, geometry.1);
            let gives = (response.0, response.1);
            let n = <(A, B) as CompoundRequest>::expected(shape).len() as int;
            &&& request.operations() == before.operations() + request.2.operations()
            &&& request.has_shape(geometry) <==> before.has_shape(shape)
                && request.2.has_shape(geometry.2)
            &&& <(A, B, C) as CompoundRequest>::expected(geometry)
                == <(A, B) as CompoundRequest>::expected(shape)
                + C::expected(geometry.2)
            &&& n <= replies.len() ==> (<(A, B, C) as CompoundRequest>::answered(
                geometry,
                replies,
                response,
            ) <==> {
                &&& <(A, B) as CompoundRequest>::answered(shape, replies.take(n), gives)
                &&& C::answered(geometry.2, replies.skip(n), response.2)
            })
        }),
{
    let before = (request.0, request.1);
    let shape = (geometry.0, geometry.1);
    let gives = (response.0, response.1);
    let rest = (request.1, request.2);
    let rest_shape = (geometry.1, geometry.2);
    let rest_gives = (response.1, response.2);
    let first = A::expected(geometry.0).len() as int;
    let n = <(A, B) as CompoundRequest>::expected(shape).len() as int;
    lemma_tuple_of_2(rest, rest_shape, replies.skip(first), rest_gives);
    assert(request.operations() =~= before.operations() + request.2.operations());
    assert(<(A, B, C) as CompoundRequest>::expected(geometry)
        =~= <(A, B) as CompoundRequest>::expected(shape) + C::expected(geometry.2));
    if n <= replies.len() {
        assert(replies.take(n).take(first) =~= replies.take(first));
        assert(replies.take(n).skip(first) =~= replies.skip(first).take(n - first));
        assert(replies.skip(first).skip(n - first) =~= replies.skip(n));
    }
}

/// The last of 4 members is asked for behind the others, and gives what the replies behind
/// those to the others give.
pub proof fn lemma_tuple_of_4<
    A: CompoundRequest,
    B: CompoundRequest,
    C: CompoundRequest,
    D: CompoundRequest,
>(
    request: (A, B, C, D),
    geometry: (A::Geometry, B::Geometry, C::Geometry, D::Geometry),
    replies: Seq<ResOp>,
    response: (A::Response, B::Response, C::Response, D::Response),
)
    ensures
        ({
            let before = (request.0, request.1, request.2);
            let shape = (geometry.0, geometry.1, geometry.2);
            let gives = (response.0, response.1, response.2);
            let n = <(A, B, C) as CompoundRequest>::expected(shape).len() as int;
            &&& request.operations() == before.operations() + request.3.operations()
            &&& request.has_shape(geometry) <==> before.has_shape(shape)
                && request.3.has_shape(geometry.3)
            &&& <(A, B, C, D) as CompoundRequest>::expected(geometry)
                == <(A, B, C) as CompoundRequest>::expected(shape)
                + D::expected(geometry.3)
            &&& n <= replies.len() ==> (<(A, B, C, D) as CompoundRequest>::answered(
                geometry,
                replies,
                response,
            ) <==> {
                &&& <(A, B, C) as CompoundRequest>::answered(shape, replies.take(n), gives)
                &&& D::answered(geometry.3, replies.skip(n), response.3)
            })
        }),
{
    let before = (request.0, request.1, request.2);
    let shape = (geometry.0, geometry.1, geometry.2);
    let gives = (response.0, response.1, response.2);
    let rest = (request.1, request.2, request.3);
    let rest_shape = (geometry.1, geometry.2, geometry.3);
    let rest_gives = (response.1, response.2, response.3);
    let first = A::expected(geometry.0).len() as int;
    let n = <(A, B, C) as CompoundRequest>::expected(shape).len() as int;
    lemma_tuple_of_3(rest, rest_shape, replies.skip(first), rest_gives);
    assert(request.operations() =~= before.operations() + request.3.operations());
    assert(<(A, B, C, D) as CompoundRequest>::expected(geometry)
        =~= <(A, B, C) as CompoundRequest>::expected(shape) + D::expected(geometry.3));
    if n <= replies.len() {
        assert(replies.take(n).take(first) =~= replies.take(first));
        assert(replies.take(n).skip(first) =~= replies.skip(first).take(n - first));
        assert(replies.skip(first).skip(n - first) =~= replies.skip(n));
    }
}

/// The last of 5 members is asked for behind the others, and gives what the replies behind
/// those to the others give.
pub proof fn lemma_tuple_of_5<
    A: CompoundRequest,
    B: CompoundRequest,
    C: CompoundRequest,
    D: CompoundRequest,
    E: CompoundRequest,
>(
    request: (A, B, C, D, E),
    geometry: (A::Geometry, B::Geometry, C::Geometry, D::Geometry, E::Geometry),
    replies: Seq<ResOp>,
    response: (A::Response, B::Response, C::Response, D::Response, E::Response),
)
    ensures
        ({
            let before = (request.0, request.1, request.2, request.3);
            let shape = (geometry.0, geometry.1, geometry.2, geometry.3);
            let gives = (response.0, response.1, response.2, response.3);
            let n = <(A, B, C, D) as CompoundRequest>::expected(shape).len() as int;
            &&& request.operations() == before.operations() + request.4.operations()
            &&& request.has_shape(geometry) <==> before.has_shape(shape)
                && request.4.has_shape(geometry.4)
            &&& <(A, B, C, D, E) as CompoundRequest>::expected(geometry)
                == <(A, B, C, D) as CompoundRequest>::expected(shape)
                + E::expected(geometry.4)
            &&& n <= replies.len() ==> (<(A, B, C, D, E) as CompoundRequest>::answered(
                geometry,
                replies,
                response,
            ) <==> {
                &&& <(A, B, C, D) as CompoundRequest>::answered(shape, replies.take(n), gives)
                &&& E::answered(geometry.4, replies.skip(n), response.4)
            })
        }),
{
    let before = (request.0, request.1, request.2, request.3);
    let shape = (geometry.0, geometry.1, geometry.2, geometry.3);
    let gives = (response.0, response.1, response.2, response.3);
    let rest = (request.1, request.2, request.3, request.4);
    let rest_shape = (geometry.1, geometry.2, geometry.3, geometry.4);
    let rest_gives = (response.1, response.2, response.3, response.4);
    let first = A::expected(geometry.0).len() as int;
    let n = <(A, B, C, D) as CompoundRequest>::expected(shape).len() as int;
    lemma_tuple_of_4(rest, rest_shape, replies.skip(first), rest_gives);
    assert(request.operations() =~= before.operations() + request.4.operations());
    assert(<(A, B, C, D, E) as CompoundRequest>::expected(geometry)
        =~= <(A, B, C, D) as CompoundRequest>::expected(shape) + E::expected(geometry.4));
    if n <= replies.len() {
        assert(replies.take(n).take(first) =~= replies.take(first));
        assert(replies.take(n).skip(first) =~= replies.skip(first).take(n - first));
        assert(replies.skip(first).skip(n - first) =~= replies.skip(n));
    }
}

/// The last of 6 members is asked for behind the others, and gives what the replies behind
/// those to the others give.
pub proof fn lemma_tuple_of_6<
    A: CompoundRequest,
    B: CompoundRequest,
    C: CompoundRequest,
    D: CompoundRequest,
    E: CompoundRequest,
    F: CompoundRequest,
>(
    request: (A, B, C, D, E, F),
    geometry: (A::Geometry, B::Geometry, C::Geometry, D::Geometry, E::Geometry, F::Geometry),
    replies: Seq<ResOp>,
    response: (A::Response, B::Response, C::Response, D::Response, E::Response, F::Response),
)
    ensures
        ({
            let before = (request.0, request.1, request.2, request.3, request.4);
            let shape = (geometry.0, geometry.1, geometry.2, geometry.3, geometry.4);
            let gives = (response.0, response.1, response.2, response.3, response.4);
            let n = <(A, B, C, D, E) as CompoundRequest>::expected(shape).len() as int;
            &&& request.operations() == before.operations() + request.5.operations()
            &&& request.has_shape(geometry) <==> before.has_shape(shape)
                && request.5.has_shape(geometry.5)
            &&& <(A, B, C, D, E, F) as CompoundRequest>::expected(geometry)
                == <(A, B, C, D, E) as CompoundRequest>::expected(shape)
                + F::expected(geometry.5)
            &&& n <= replies.len() ==> (<(A, B, C, D, E, F) as CompoundRequest>::answered(
                geometry,
                replies,
                response,
            ) <==> {
                &&& <(A, B, C, D, E) as CompoundRequest>::answered(shape, replies.take(n), gives)
                &&& F::answered(geometry.5, replies.skip(n), response.5)
            })
        }),
{
    let before = (request.0, request.1, request.2, request.3, request.4);
    let shape = (geometry.0, geometry.1, geometry.2, geometry.3, geometry.4);
    let gives = (response.0, response.1, response.2, response.3, response.4);
    let rest = (request.1, request.2, request.3, request.4, request.5);
    let rest_shape = (geometry.1, geometry.2, geometry.3, geometry.4, geometry.5);
    let rest_gives = (response.1, response.2, response.3, response.4, response.5);
    let first = A::expected(geometry.0).len() as int;
    let n = <(A, B, C, D, E) as CompoundRequest>::expected(shape).len() as int;
    lemma_tuple_of_5(rest, rest_shape, replies.skip(first), rest_gives);
    assert(request.operations() =~= before.operations() + request.5.operations());
    assert(<(A, B, C, D, E, F) as CompoundRequest>::expected(geometry)
        =~= <(A, B, C, D, E) as CompoundRequest>::expected(shape) + F::expected(geometry.5));
    if n <= replies.len() {
        assert(replies.take(n).take(first) =~= replies.take(first));
        assert(replies.take(n).skip(first) =~= replies.skip(first).take(n - first));
        assert(replies.skip(first).skip(n - first) =~= replies.skip(n));
    }
}

/// The last of 7 members is asked for behind the others, and gives what the replies behind
/// those to the others give.
pub proof fn lemma_tuple_of_7<
    A: CompoundRequest,
    B: CompoundRequest,
    C: CompoundRequest,
    D: CompoundRequest,
    E: CompoundRequest,
    F: CompoundRequest,
    G: CompoundRequest,
>(
    request: (A, B, C, D, E, F, G),
    geometry: (
        A::Geometry, B::Geometry, C::Geometry, D::Geometry, E::Geometry, F::Geometry, G::Geometry,
    ),
    replies: Seq<ResOp>,
    response: (
        A::Response, B::Response, C::Response, D::Response, E::Response, F::Response, G::Response,
    ),
)
    ensures
        ({
            let before = (request.0, request.1, request.2, request.3, request.4, request.5);
            let shape = (geometry.0, geometry.1, geometry.2, geometry.3, geometry.4, geometry.5);
            let gives = (response.0, response.1, response.2, response.3, response.4, response.5);
            let n = <(A, B, C, D, E, F) as CompoundRequest>::expected(shape).len() as int;
            &&& request.operations() == before.operations() + request.6.operations()
            &&& request.has_shape(geometry) <==> before.has_shape(shape)
                && request.6.has_shape(geometry.6)
            &&& <(A, B, C, D, E, F, G) as CompoundRequest>::expected(geometry)
                == <(A, B, C, D, E, F) as CompoundRequest>::expected(shape)
                + G::expected(geometry.6)
            &&& n <= replies.len() ==> (<(A, B, C, D, E, F, G) as CompoundRequest>::answered(
                geometry,
                replies,
                response,
            ) <==> {
                &&& <(A, B, C, D, E, F) as CompoundRequest>::answered(shape, replies.take(n), gives)
                &&& G::answered(geometry.6, replies.skip(n), response.6)
            })
        }),
{
    let before = (request.0, request.1, request.2, request.3, request.4, request.5);
    let shape = (geometry.0, geometry.1, geometry.2, geometry.3, geometry.4, geometry.5);
    let gives = (response.0, response.1, response.2, response.3, response.4, response.5);
    let rest = (request.1, request.2, request.3, request.4, request.5, request.6);
    let rest_shape = (geometry.1, geometry.2, geometry.3, geometry.4, geometry.5, geometry.6);
    let rest_gives = (response.1, response.2, response.3, response.4, response.5, response.6);
    let first = A::expected(geometry.0).len() as int;
    let n = <(A, B, C, D, E, F) as CompoundRequest>::expected(shape).len() as int;
    lemma_tuple_of_6(rest, rest_shape, replies.skip(first), rest_gives);
    assert(request.operations() =~= before.operations() + request.6.operations());
    assert(<(A, B, C, D, E, F, G) as CompoundRequest>::expected(geometry)
        =~= <(A, B, C, D, E, F) as CompoundRequest>::expected(shape) + G::expected(geometry.6));
    if n <= replies.len() {
        assert(replies.take(n).take(first) =~= replies.take(first));
        assert(replies.take(n).skip(first) =~= replies.skip(first).take(n - first));
        assert(replies.skip(first).skip(n - first) =~= replies.skip(n));
    }
}

/// The last of 8 members is asked for behind the others, and gives what the replies behind
/// those to the others give.
pub proof fn lemma_tuple_of_8<
    A: CompoundRequest,
    B: CompoundRequest,
    C: CompoundRequest,
    D: CompoundRequest,
    E: CompoundRequest,
    F: CompoundRequest,
    G: CompoundRequest,
    H: CompoundRequest,
>(
    request: (A, B, C, D, E, F, G, H),
    geometry: (
        A::Geometry, B::Geometry, C::Geometry, D::Geometry, E::Geometry, F::Geometry, G::Geometry,
        H::Geometry,
    ),
    replies: Seq<ResOp>,
    response: (
        A::Response, B::Response, C::Response, D::Response, E::Response, F::Response, G::Response,
        H::Response,
    ),
)
    ensures
        ({
            let before = (
                request.0, request.1, request.2, request.3, request.4, request.5, request.6,
            );
            let shape = (
                geometry.0, geometry.1, geometry.2, geometry.3, geometry.4, geometry.5, geometry.6,
            );
            let gives = (
                response.0, response.1, response.2, response.3, response.4, response.5, response.6,
            );
            let n = <(A, B, C, D, E, F, G) as CompoundRequest>::expected(shape).len() as int;
            &&& request.operations() == before.operations() + request.7.operations()
            &&& request.has_shape(geometry) <==> before.has_shape(shape)
                && request.7.has_shape(geometry.7)
            &&& <(A, B, C, D, E, F, G, H) as CompoundRequest>::expected(geometry)
                == <(A, B, C, D, E, F, G) as CompoundRequest>::expected(shape)
                + H::expected(geometry.7)
            &&& n <= replies.len() ==> (<(A, B, C, D, E, F, G, H) as CompoundRequest>::answered(
                geometry,
                replies,
                response,
            ) <==> {
                &&& <(A, B, C, D, E, F, G) as CompoundRequest>::answered(shape, replies.take(n), gives)
                &&& H::answered(geometry.7, replies.skip(n), response.7)
            })
        }),
{
    let before = (request.0, request.1, request.2, request.3, request.4, request.5, request.6);
    let shape = (
        geometry.0, geometry.1, geometry.2, geometry.3, geometry.4, geometry.5, geometry.6,
    );
    let gives = (
        response.0, response.1, response.2, response.3, response.4, response.5, response.6,
    );
    let rest = (request.1, request.2, request.3, request.4, request.5, request.6, request.7);
    let rest_shape = (
        geometry.1, geometry.2, geometry.3, geometry.4, geometry.5, geometry.6, geometry.7,
    );
    let rest_gives = (
        response.1, response.2, response.3, response.4, response.5, response.6, response.7,
    );
    let first = A::expected(geometry.0).len() as int;
    let n = <(A, B, C, D, E, F, G) as CompoundRequest>::expected(shape).len() as int;
    lemma_tuple_of_7(rest, rest_shape, replies.skip(first), rest_gives);
    assert(request.operations() =~= before.operations() + request.7.operations());
    assert(<(A, B, C, D, E, F, G, H) as CompoundRequest>::expected(geometry)
        =~= <(A, B, C, D, E, F, G) as CompoundRequest>::expected(shape) + H::expected(geometry.7));
    if n <= replies.len() {
        assert(replies.take(n).take(first) =~= replies.take(first));
        assert(replies.take(n).skip(first) =~= replies.skip(first).take(n - first));
        assert(replies.skip(first).skip(n - first) =~= replies.skip(n));
    }
}

/// The last of 9 members is asked for behind the others, and gives what the replies behind
/// those to the others give.
pub proof fn lemma_tuple_of_9<
    A: CompoundRequest,
    B: CompoundRequest,
    C: CompoundRequest,
    D: CompoundRequest,
    E: CompoundRequest,
    F: CompoundRequest,
    G: CompoundRequest,
    H: CompoundRequest,
    I: CompoundRequest,
>(
    request: (A, B, C, D, E, F, G, H, I),
    geometry: (
        A::Geometry, B::Geometry, C::Geometry, D::Geometry, E::Geometry, F::Geometry, G::Geometry,
        H::Geometry, I::Geometry,
    ),
    replies: Seq<ResOp>,
    response: (
        A::Response, B::Response, C::Response, D::Response, E::Response, F::Response, G::Response,
        H::Response, I::Response,
    ),
)
    ensures
        ({
            let before = (
                request.0, request.1, request.2, request.3, request.4, request.5, request.6,
                request.7,
            );
            let shape = (
                geometry.0, geometry.1, geometry.2, geometry.3, geometry.4, geometry.5, geometry.6,
                geometry.7,
            );
            let gives = (
                response.0, response.1, response.2, response.3, response.4, response.5, response.6,
                response.7,
            );
            let n = <(A, B, C, D, E, F, G, H) as CompoundRequest>::expected(shape).len() as int;
            &&& request.operations() == before.operations() + request.8.operations()
            &&& request.has_shape(geometry) <==> before.has_shape(shape)
                && request.8.has_shape(geometry.8)
            &&& <(A, B, C, D, E, F, G, H, I) as CompoundRequest>::expected(geometry)
                == <(A, B, C, D, E, F, G, H) as CompoundRequest>::expected(shape)
                + I::expected(geometry.8)
            &&& n <= replies.len() ==> (<(A, B, C, D, E, F, G, H, I) as CompoundRequest>::answered(
                geometry,
                replies,
                response,
            ) <==> {
                &&& <(A, B, C, D, E, F, G, H) as CompoundRequest>::answered(shape, replies.take(n), gives)
                &&& I::answered(geometry.8, replies.skip(n), response.8)
            })
        }),
{
    let before = (
        request.0, request.1, request.2, request.3, request.4, request.5, request.6, request.7,
    );
    let shape = (
        geometry.0, geometry.1, geometry.2, geometry.3, geometry.4, geometry.5, geometry.6,
        geometry.7,
    );
    let gives = (
        response.0, response.1, response.2, response.3, response.4, response.5, response.6,
        response.7,
    );
    let rest = (
        request.1, request.2, request.3, request.4, request.5, request.6, request.7, request.8,
    );
    let rest_shape = (
        geometry.1, geometry.2, geometry.3, geometry.4, geometry.5, geometry.6, geometry.7,
        geometry.8,
    );
    let rest_gives = (
        response.1, response.2, response.3, response.4, response.5, response.6, response.7,
        response.8,
    );
    let first = A::expected(geometry.0).len() as int;
    let n = <(A, B, C, D, E, F, G, H) as CompoundRequest>::expected(shape).len() as int;
    lemma_tuple_of_8(rest, rest_shape, replies.skip(first), rest_gives);
    assert(request.operations() =~= before.operations() + request.8.operations());
    assert(<(A, B, C, D, E, F, G, H, I) as CompoundRequest>::expected(geometry)
        =~= <(A, B, C, D, E, F, G, H) as CompoundRequest>::expected(shape) + I::expected(geometry.8));
    if n <= replies.len() {
        assert(replies.take(n).take(first) =~= replies.take(first));
        assert(replies.take(n).skip(first) =~= replies.skip(first).take(n - first));
        assert(replies.skip(first).skip(n - first) =~= replies.skip(n));
    }
}

/// The last of 10 members is asked for behind the others, and gives what the replies behind
/// those to the others give.
pub proof fn lemma_tuple_of_10<
    A: CompoundRequest,
    B: CompoundRequest,
    C: CompoundRequest,
    D: CompoundRequest,
    E: CompoundRequest,
    F: CompoundRequest,
    G: CompoundRequest,
    H: CompoundRequest,
    I: CompoundRequest,
    J: CompoundRequest,
>(
    request: (A, B, C, D, E, F, G, H, I, J),
    geometry: (
        A::Geometry, B::Geometry, C::Geometry, D::Geometry, E::Geometry, F::Geometry, G::Geometry,
        H::Geometry, I::Geometry, J::Geometry,
    ),
    replies: Seq<ResOp>,
    response: (
        A::Response, B::Response, C::Response, D::Response, E::Response, F::Response, G::Response,
        H::Response, I::Response, J::Response,
    ),
)
    ensures
        ({
            let before = (
                request.0, request.1, request.2, request.3, request.4, request.5, request.6,
                request.7, request.8,
            );
            let shape = (
                geometry.0, geometry.1, geometry.2, geometry.3, geometry.4, geometry.5, geometry.6,
                geometry.7, geometry.8,
            );
            let gives = (
                response.0, response.1, response.2, response.3, response.4, response.5, response.6,
                response.7, response.8,
            );
            let n = <(A, B, C, D, E, F, G, H, I) as CompoundRequest>::expected(shape).len() as int;
            &&& request.operations() == before.operations() + request.9.operations()
            &&& request.has_shape(geometry) <==> before.has_shape(shape)
                && request.9.has_shape(geometry.9)
            &&& <(A, B, C, D, E, F, G, H, I, J) as CompoundRequest>::expected(geometry)
                == <(A, B, C, D, E, F, G, H, I) as CompoundRequest>::expected(shape)
                + J::expected(geometry.9)
            &&& n <= replies.len() ==> (<(A, B, C, D, E, F, G, H, I, J) as CompoundRequest>::answered(
                geometry,
                replies,
                response,
            ) <==> {
                &&& <(A, B, C, D, E, F, G, H, I) as CompoundRequest>::answered(shape, replies.take(n), gives)
                &&& J::answered(geometry.9, replies.skip(n), response.9)
            })
        }),
{
    let before = (
        request.0, request.1, request.2, request.3, request.4, request.5, request.6, request.7,
        request.8,
    );
    let shape = (
        geometry.0, geometry.1, geometry.2, geometry.3, geometry.4, geometry.5, geometry.6,
        geometry.7, geometry.8,
    );
    let gives = (
        response.0, response.1, response.2, response.3, response.4, response.5, response.6,
        response.7, response.8,
    );
    let rest = (
        request.1, request.2, request.3, request.4, request.5, request.6, request.7, request.8,
        request.9,
    );
    let rest_shape = (
        geometry.1, geometry.2, geometry.3, geometry.4, geometry.5, geometry.6, geometry.7,
        geometry.8, geometry.9,
    );
    let rest_gives = (
        response.1, response.2, response.3, response.4, response.5, response.6, response.7,
        response.8, response.9,
    );
    let first = A::expected(geometry.0).len() as int;
    let n = <(A, B, C, D, E, F, G, H, I) as CompoundRequest>::expected(shape).len() as int;
    lemma_tuple_of_9(rest, rest_shape, replies.skip(first), rest_gives);
    assert(request.operations() =~= before.operations() + request.9.operations());
    assert(<(A, B, C, D, E, F, G, H, I, J) as CompoundRequest>::expected(geometry)
        =~= <(A, B, C, D, E, F, G, H, I) as CompoundRequest>::expected(shape) + J::expected(geometry.9));
    if n <= replies.len() {
        assert(replies.take(n).take(first) =~= replies.take(first));
        assert(replies.take(n).skip(first) =~= replies.skip(first).take(n - first));
        assert(replies.skip(first).skip(n - first) =~= replies.skip(n));
    }
}

/// The last of 11 members is asked for behind the others, and gives what the replies behind
/// those to the others give.
pub proof fn lemma_tuple_of_11<
    A: CompoundRequest,
    B: CompoundRequest,
    C: CompoundRequest,
    D: CompoundRequest,
    E: CompoundRequest,
    F: CompoundRequest,
    G: CompoundRequest,
    H: CompoundRequest,
    I: CompoundRequest,
    J: CompoundRequest,
    K: CompoundRequest,
>(
    request: (A, B, C, D, E, F, G, H, I, J, K),
    geometry: (
        A::Geometry, B::Geometry, C::Geometry, D::Geometry, E::Geometry, F::Geometry, G::Geometry,
        H::Geometry, I::Geometry, J::Geometry, K::Geometry,
    ),
    replies: Seq<ResOp>,
    response: (
        A::Response, B::Response, C::Response, D::Response, E::Response, F::Response, G::Response,
        H::Response, I::Response, J::Response, K::Response,
    ),
)
    ensures
        ({
            let before = (
                request.0, request.1, request.2, request.3, request.4, request.5, request.6,
                request.7, request.8, request.9,
            );
            let shape = (
                geometry.0, geometry.1, geometry.2, geometry.3, geometry.4, geometry.5, geometry.6,
                geometry.7, geometry.8, geometry.9,
            );
            let gives = (
                response.0, response.1, response.2, response.3, response.4, response.5, response.6,
                response.7, response.8, response.9,
            );
            let n = <(A, B, C, D, E, F, G, H, I, J) as CompoundRequest>::expected(shape).len() as int;
            &&& request.operations() == before.operations() + request.10.operations()
            &&& request.has_shape(geometry) <==> before.has_shape(shape)
                && request.10.has_shape(geometry.10)
            &&& <(A, B, C, D, E, F, G, H, I, J, K) as CompoundRequest>::expected(geometry)
                == <(A, B, C, D, E, F, G, H, I, J) as CompoundRequest>::expected(shape)
                + K::expected(geometry.10)
            &&& n <= replies.len() ==> (<(A, B, C, D, E, F, G, H, I, J, K) as CompoundRequest>::answered(
                geometry,
                replies,
                response,
            ) <==> {
                &&& <(A, B, C, D, E, F, G, H, I, J) as CompoundRequest>::answered(shape, replies.take(n), gives)
                &&& K::answered(geometry.10, replies.skip(n), response.10)
            })
        }),
{
    let before = (
        request.0, request.1, request.2, request.3, request.4, request.5, request.6, request.7,
        request.8, request.9,
    );
    let shape = (
        geometry.0, geometry.1, geometry.2, geometry.3, geometry.4, geometry.5, geometry.6,
        geometry.7, geometry.8, geometry.9,
    );
    let gives = (
        response.0, response.1, response.2, response.3, response.4, response.5, response.6,
        response.7, response.8, response.9,
    );
    let rest = (
        request.1, request.2, request.3, request.4, request.5, request.6, request.7, request.8,
        request.9, request.10,
    );
    let rest_shape = (
        geometry.1, geometry.2, geometry.3, geometry.4, geometry.5, geometry.6, geometry.7,
        geometry.8, geometry.9, geometry.10,
    );
    let rest_gives = (
        response.1, response.2, response.3, response.4, response.5, response.6, response.7,
        response.8, response.9, response.10,
    );
    let first = A::expected(geometry.0).len() as int;
    let n = <(A, B, C, D, E, F, G, H, I, J) as CompoundRequest>::expected(shape).len() as int;
    lemma_tuple_of_10(rest, rest_shape, replies.skip(first), rest_gives);
    assert(request.operations() =~= before.operations() + request.10.operations());
    assert(<(A, B, C, D, E, F, G, H, I, J, K) as CompoundRequest>::expected(geometry)
        =~= <(A, B, C, D, E, F, G, H, I, J) as CompoundRequest>::expected(shape) + K::expected(geometry.10));
    if n <= replies.len() {
        assert(replies.take(n).take(first) =~= replies.take(first));
        assert(replies.take(n).skip(first) =~= replies.skip(first).take(n - first));
        assert(replies.skip(first).skip(n - first) =~= replies.skip(n));
    }
}

/// The last of 12 members is asked for behind the others, and gives what the replies behind
/// those to the others give.
pub proof fn lemma_tuple_of_12<
    A: CompoundRequest,
    B: CompoundRequest,
    C: CompoundRequest,
    D: CompoundRequest,
    E: CompoundRequest,
    F: CompoundRequest,
    G: CompoundRequest,
    H: CompoundRequest,
    I: CompoundRequest,
    J: CompoundRequest,
    K: CompoundRequest,
    L: CompoundRequest,
>(
    request: (A, B, C, D, E, F, G, H, I, J, K, L),
    geometry: (
        A::Geometry, B::Geometry, C::Geometry, D::Geometry, E::Geometry, F::Geometry, G::Geometry,
        H::Geometry, I::Geometry, J::Geometry, K::Geometry, L::Geometry,
    ),
    replies: Seq<ResOp>,
    response: (
        A::Response, B::Response, C::Response, D::Response, E::Response, F::Response, G::Response,
        H::Response, I::Response, J::Response, K::Response, L::Response,
    ),
)
    ensures
        ({
            let before = (
                request.0, request.1, request.2, request.3, request.4, request.5, request.6,
                request.7, request.8, request.9, request.10,
            );
            let shape = (
                geometry.0, geometry.1, geometry.2, geometry.3, geometry.4, geometry.5, geometry.6,
                geometry.7, geometry.8, geometry.9, geometry.10,
            );
            let gives = (
                response.0, response.1, response.2, response.3, response.4, response.5, response.6,
                response.7, response.8, response.9, response.10,
            );
            let n = <(A, B, C, D, E, F, G, H, I, J, K) as CompoundRequest>::expected(shape).len() as int;
            &&& request.operations() == before.operations() + request.11.operations()
            &&& request.has_shape(geometry) <==> before.has_shape(shape)
                && request.11.has_shape(geometry.11)
            &&& <(A, B, C, D, E, F, G, H, I, J, K, L) as CompoundRequest>::expected(geometry)
                == <(A, B, C, D, E, F, G, H, I, J, K) as CompoundRequest>::expected(shape)
                + L::expected(geometry.11)
            &&& n <= replies.len() ==> (<(A, B, C, D, E, F, G, H, I, J, K, L) as CompoundRequest>::answered(
                geometry,
                replies,
                response,
            ) <==> {
                &&& <(A, B, C, D, E, F, G, H, I, J, K) as CompoundRequest>::answered(shape, replies.take(n), gives)
                &&& L::answered(geometry.11, replies.skip(n), response.11)
            })
        }),
{
    let before = (
        request.0, request.1, request.2, request.3, request.4, request.5, request.6, request.7,
        request.8, request.9, request.10,
    );
    let shape = (
        geometry.0, geometry.1, geometry.2, geometry.3, geometry.4, geometry.5, geometry.6,
        geometry.7, geometry.8, geometry.9, geometry.10,
    );
    let gives = (
        response.0, response.1, response.2, response.3, response.4, response.5, response.6,
        response.7, response.8, response.9, response.10,
    );
    let rest = (
        request.1, request.2, request.3, request.4, request.5, request.6, request.7, request.8,
        request.9, request.10, request.11,
    );
    let rest_shape = (
        geometry.1, geometry.2, geometry.3, geometry.4, geometry.5, geometry.6, geometry.7,
        geometry.8, geometry.9, geometry.10, geometry.11,
    );
    let rest_gives = (
        response.1, response.2, response.3, response.4, response.5, response.6, response.7,
        response.8, response.9, response.10, response.11,
    );
    let first = A::expected(geometry.0).len() as int;
    let n = <(A, B, C, D, E, F, G, H, I, J, K) as CompoundRequest>::expected(shape).len() as int;
    lemma_tuple_of_11(rest, rest_shape, replies.skip(first), rest_gives);
    assert(request.operations() =~= before.operations() + request.11.operations());
    assert(<(A, B, C, D, E, F, G, H, I, J, K, L) as CompoundRequest>::expected(geometry)
        =~= <(A, B, C, D, E, F, G, H, I, J, K) as CompoundRequest>::expected(shape) + L::expected(geometry.11));
    if n <= replies.len() {
        assert(replies.take(n).take(first) =~= replies.take(first));
        assert(replies.take(n).skip(first) =~= replies.skip(first).take(n - first));
        assert(replies.skip(first).skip(n - first) =~= replies.skip(n));
    }
}

/// The last of 13 members is asked for behind the others, and gives what the replies behind
/// those to the others give.
pub proof fn lemma_tuple_of_13<
    A: CompoundRequest,
    B: CompoundRequest,
    C: CompoundRequest,
    D: CompoundRequest,
    E: CompoundRequest,
    F: CompoundRequest,
    G: CompoundRequest,
    H: CompoundRequest,
    I: CompoundRequest,
    J: CompoundRequest,
    K: CompoundRequest,
    L: CompoundRequest,
    M: CompoundRequest,
>(
    request: (A, B, C, D, E, F, G, H, I, J, K, L, M),
    geometry: (
        A::Geometry, B::Geometry, C::Geometry, D::Geometry, E::Geometry, F::Geometry, G::Geometry,
        H::Geometry, I::Geometry, J::Geometry, K::Geometry, L::Geometry, M::Geometry,
    ),
    replies: Seq<ResOp>,
    response: (
        A::Response, B::Response, C::Response, D::Response, E::Response, F::Response, G::Response,
        H::Response, I::Response, J::Response, K::Response, L::Response, M::Response,
    ),
)
    ensures
        ({
            let before = (
                request.0, request.1, request.2, request.3, request.4, request.5, request.6,
                request.7, request.8, request.9, request.10, request.11,
            );
            let shape = (
                geometry.0, geometry.1, geometry.2, geometry.3, geometry.4, geometry.5, geometry.6,
                geometry.7, geometry.8, geometry.9, geometry.10, geometry.11,
            );
            let gives = (
                response.0, response.1, response.2, response.3, response.4, response.5, response.6,
                response.7, response.8, response.9, response.10, response.11,
            );
            let n = <(A, B, C, D, E, F, G, H, I, J, K, L) as CompoundRequest>::expected(shape).len() as int;
            &&& request.operations() == before.operations() + request.12.operations()
            &&& request.has_shape(geometry) <==> before.has_shape(shape)
                && request.12.has_shape(geometry.12)
            &&& <(A, B, C, D, E, F, G, H, I, J, K, L, M) as CompoundRequest>::expected(geometry)
                == <(A, B, C, D, E, F, G, H, I, J, K, L) as CompoundRequest>::expected(shape)
                + M::expected(geometry.12)
            &&& n <= replies.len() ==> (<(A, B, C, D, E, F, G, H, I, J, K, L, M) as CompoundRequest>::answered(
                geometry,
                replies,
                response,
            ) <==> {
                &&& <(A, B, C, D, E, F, G, H, I, J, K, L) as CompoundRequest>::answered(shape, replies.take(n), gives)
                &&& M::answered(geometry.12, replies.skip(n), response.12)
            })
        }),
{
    let before = (
        request.0, request.1, request.2, request.3, request.4, request.5, request.6, request.7,
        request.8, request.9, request.10, request.11,
    );
    let shape = (
        geometry.0, geometry.1, geometry.2, geometry.3, geometry.4, geometry.5, geometry.6,
        geometry.7, geometry.8, geometry.9, geometry.10, geometry.11,
    );
    let gives = (
        response.0, response.1, response.2, response.3, response.4, response.5, response.6,
        response.7, response.8, response.9, response.10, response.11,
    );
    let rest = (
        request.1, request.2, request.3, request.4, request.5, request.6, request.7, request.8,
        request.9, request.10, request.11, request.12,
    );
    let rest_shape = (
        geometry.1, geometry.2, geometry.3, geometry.4, geometry.5, geometry.6, geometry.7,
        geometry.8, geometry.9, geometry.10, geometry.11, geometry.12,
    );
    let rest_gives = (
        response.1, response.2, response.3, response.4, response.5, response.6, response.7,
        response.8, response.9, response.10, response.11, response.12,
    );
    let first = A::expected(geometry.0).len() as int;
    let n = <(A, B, C, D, E, F, G, H, I, J, K, L) as CompoundRequest>::expected(shape).len() as int;
    lemma_tuple_of_12(rest, rest_shape, replies.skip(first), rest_gives);
    assert(request.operations() =~= before.operations() + request.12.operations());
    assert(<(A, B, C, D, E, F, G, H, I, J, K, L, M) as CompoundRequest>::expected(geometry)
        =~= <(A, B, C, D, E, F, G, H, I, J, K, L) as CompoundRequest>::expected(shape) + M::expected(geometry.12));
    if n <= replies.len() {
        assert(replies.take(n).take(first) =~= replies.take(first));
        assert(replies.take(n).skip(first) =~= replies.skip(first).take(n - first));
        assert(replies.skip(first).skip(n - first) =~= replies.skip(n));
    }
}

/// The last of 14 members is asked for behind the others, and gives what the replies behind
/// those to the others give.
pub proof fn lemma_tuple_of_14<
    A: CompoundRequest,
    B: CompoundRequest,
    C: CompoundRequest,
    D: CompoundRequest,
    E: CompoundRequest,
    F: CompoundRequest,
    G: CompoundRequest,
    H: CompoundRequest,
    I: CompoundRequest,
    J: CompoundRequest,
    K: CompoundRequest,
    L: CompoundRequest,
    M: CompoundRequest,
    N: CompoundRequest,
>(
    request: (A, B, C, D, E, F, G, H, I, J, K, L, M, N),
    geometry: (
        A::Geometry, B::Geometry, C::Geometry, D::Geometry, E::Geometry, F::Geometry, G::Geometry,
        H::Geometry, I::Geometry, J::Geometry, K::Geometry, L::Geometry, M::Geometry, N::Geometry,
    ),
    replies: Seq<ResOp>,
    response: (
        A::Response, B::Response, C::Response, D::Response, E::Response, F::Response, G::Response,
        H::Response, I::Response, J::Response, K::Response, L::Response, M::Response, N::Response,
    ),
)
    ensures
        ({
            let before = (
                request.0, request.1, request.2, request.3, request.4, request.5, request.6,
                request.7, request.8, request.9, request.10, request.11, request.12,
            );
            let shape = (
                geometry.0, geometry.1, geometry.2, geometry.3, geometry.4, geometry.5, geometry.6,
                geometry.7, geometry.8, geometry.9, geometry.10, geometry.11, geometry.12,
            );
            let gives = (
                response.0, response.1, response.2, response.3, response.4, response.5, response.6,
                response.7, response.8, response.9, response.10, response.11, response.12,
            );
            let n = <(A, B, C, D, E, F, G, H, I, J, K, L, M) as CompoundRequest>::expected(shape).len() as int;
            &&& request.operations() == before.operations() + request.13.operations()
            &&& request.has_shape(geometry) <==> before.has_shape(shape)
                && request.13.has_shape(geometry.13)
            &&& <(A, B, C, D, E, F, G, H, I, J, K, L, M, N) as CompoundRequest>::expected(geometry)
                == <(A, B, C, D, E, F, G, H, I, J, K, L, M) as CompoundRequest>::expected(shape)
                + N::expected(geometry.13)
            &&& n <= replies.len() ==> (<(A, B, C, D, E, F, G, H, I, J, K, L, M, N) as CompoundRequest>::answered(
                geometry,
                replies,
                response,
            ) <==> {
                &&& <(A, B, C, D, E, F, G, H, I, J, K, L, M) as CompoundRequest>::answered(shape, replies.take(n), gives)
                &&& N::answered(geometry.13, replies.skip(n), response.13)
            })
        }),
{
    let before = (
        request.0, request.1, request.2, request.3, request.4, request.5, request.6, request.7,
        request.8, request.9, request.10, request.11, request.12,
    );
    let shape = (
        geometry.0, geometry.1, geometry.2, geometry.3, geometry.4, geometry.5, geometry.6,
        geometry.7, geometry.8, geometry.9, geometry.10, geometry.11, geometry.12,
    );
    let gives = (
        response.0, response.1, response.2, response.3, response.4, response.5, response.6,
        response.7, response.8, response.9, response.10, response.11, response.12,
    );
    let rest = (
        request.1, request.2, request.3, request.4, request.5, request.6, request.7, request.8,
        request.9, request.10, request.11, request.12, request.13,
    );
    let rest_shape = (
        geometry.1, geometry.2, geometry.3, geometry.4, geometry.5, geometry.6, geometry.7,
        geometry.8, geometry.9, geometry.10, geometry.11, geometry.12, geometry.13,
    );
    let rest_gives = (
        response.1, response.2, response.3, response.4, response.5, response.6, response.7,
        response.8, response.9, response.10, response.11, response.12, response.13,
    );
    let first = A::expected(geometry.0).len() as int;
    let n = <(A, B, C, D, E, F, G, H, I, J, K, L, M) as CompoundRequest>::expected(shape).len() as int;
    lemma_tuple_of_13(rest, rest_shape, replies.skip(first), rest_gives);
    assert(request.operations() =~= before.operations() + request.13.operations());
    assert(<(A, B, C, D, E, F, G, H, I, J, K, L, M, N) as CompoundRequest>::expected(geometry)
        =~= <(A, B, C, D, E, F, G, H, I, J, K, L, M) as CompoundRequest>::expected(shape) + N::expected(geometry.13));
    if n <= replies.len() {
        assert(replies.take(n).take(first) =~= replies.take(first));
        assert(replies.take(n).skip(first) =~= replies.skip(first).take(n - first));
        assert(replies.skip(first).skip(n - first) =~= replies.skip(n));
    }
}

/// The last of 15 members is asked for behind the others, and gives what the replies behind
/// those to the others give.
pub proof fn lemma_tuple_of_15<
    A: CompoundRequest,
    B: CompoundRequest,
    C: CompoundRequest,
    D: CompoundRequest,
    E: CompoundRequest,
    F: CompoundRequest,
    G: CompoundRequest,
    H: CompoundRequest,
    I: CompoundRequest,
    J: CompoundRequest,
    K: CompoundRequest,
    L: CompoundRequest,
    M: CompoundRequest,
    N: CompoundRequest,
    O: CompoundRequest,
>(
    request: (A, B, C, D, E, F, G, H, I, J, K, L, M, N, O),
    geometry: (
        A::Geometry, B::Geometry, C::Geometry, D::Geometry, E::Geometry, F::Geometry, G::Geometry,
        H::Geometry, I::Geometry, J::Geometry, K::Geometry, L::Geometry, M::Geometry, N::Geometry,
        O::Geometry,
    ),
    replies: Seq<ResOp>,
    response: (
        A::Response, B::Response, C::Response, D::Response, E::Response, F::Response, G::Response,
        H::Response, I::Response, J::Response, K::Response, L::Response, M::Response, N::Response,
        O::Response,
    ),
)
    ensures
        ({
            let before = (
                request.0, request.1, request.2, request.3, request.4, request.5, request.6,
                request.7, request.8, request.9, request.10, request.11, request.12, request.13,
            );
            let shape = (
                geometry.0, geometry.1, geometry.2, geometry.3, geometry.4, geometry.5, geometry.6,
                geometry.7, geometry.8, geometry.9, geometry.10, geometry.11, geometry.12,
                geometry.13,
            );
            let gives = (
                response.0, response.1, response.2, response.3, response.4, response.5, response.6,
                response.7, response.8, response.9, response.10, response.11, response.12,
                response.13,
            );
            let n = <(A, B, C, D, E, F, G, H, I, J, K, L, M, N) as CompoundRequest>::expected(shape).len() as int;
            &&& request.operations() == before.operations() + request.14.operations()
            &&& request.has_shape(geometry) <==> before.has_shape(shape)
                && request.14.has_shape(geometry.14)
            &&& <(A, B, C, D, E, F, G, H, I, J, K, L, M, N, O) as CompoundRequest>::expected(geometry)
                == <(A, B, C, D, E, F, G, H, I, J, K, L, M, N) as CompoundRequest>::expected(shape)
                + O::expected(geometry.14)
            &&& n <= replies.len() ==> (<(A, B, C, D, E, F, G, H, I, J, K, L, M, N, O) as CompoundRequest>::answered(
                geometry,
                replies,
                response,
            ) <==> {
                &&& <(A, B, C, D, E, F, G, H, I, J, K, L, M, N) as CompoundRequest>::answered(shape, replies.take(n), gives)
                &&& O::answered(geometry.14, replies.skip(n), response.14)
            })
        }),
{
    let before = (
        request.0, request.1, request.2, request.3, request.4, request.5, request.6, request.7,
        request.8, request.9, request.10, request.11, request.12, request.13,
    );
    let shape = (
        geometry.0, geometry.1, geometry.2, geometry.3, geometry.4, geometry.5, geometry.6,
        geometry.7, geometry.8, geometry.9, geometry.10, geometry.11, geometry.12, geometry.13,
    );
    let gives = (
        response.0, response.1, response.2, response.3, response.4, response.5, response.6,
        response.7, response.8, response.9, response.10, response.11, response.12, response.13,
    );
    let rest = (
        request.1, request.2, request.3, request.4, request.5, request.6, request.7, request.8,
        request.9, request.10, request.11, request.12, request.13, request.14,
    );
    let rest_shape = (
        geometry.1, geometry.2, geometry.3, geometry.4, geometry.5, geometry.6, geometry.7,
        geometry.8, geometry.9, geometry.10, geometry.11, geometry.12, geometry.13, geometry.14,
    );
    let rest_gives = (
        response.1, response.2, response.3, response.4, response.5, response.6, response.7,
        response.8, response.9, response.10, response.11, response.12, response.13, response.14,
    );
    let first = A::expected(geometry.0).len() as int;
    let n = <(A, B, C, D, E, F, G, H, I, J, K, L, M, N) as CompoundRequest>::expected(shape).len() as int;
    lemma_tuple_of_14(rest, rest_shape, replies.skip(first), rest_gives);
    assert(request.operations() =~= before.operations() + request.14.operations());
    assert(<(A, B, C, D, E, F, G, H, I, J, K, L, M, N, O) as CompoundRequest>::expected(geometry)
        =~= <(A, B, C, D, E, F, G, H, I, J, K, L, M, N) as CompoundRequest>::expected(shape) + O::expected(geometry.14));
    if n <= replies.len() {
        assert(replies.take(n).take(first) =~= replies.take(first));
        assert(replies.take(n).skip(first) =~= replies.skip(first).take(n - first));
        assert(replies.skip(first).skip(n - first) =~= replies.skip(n));
    }
}

/// The last of 16 members is asked for behind the others, and gives what the replies behind
/// those to the others give.
pub proof fn lemma_tuple_of_16<
    A: CompoundRequest,
    B: CompoundRequest,
    C: CompoundRequest,
    D: CompoundRequest,
    E: CompoundRequest,
    F: CompoundRequest,
    G: CompoundRequest,
    H: CompoundRequest,
    I: CompoundRequest,
    J: CompoundRequest,
    K: CompoundRequest,
    L: CompoundRequest,
    M: CompoundRequest,
    N: CompoundRequest,
    O: CompoundRequest,
    P: CompoundRequest,
>(
    request: (A, B, C, D, E, F, G, H, I, J, K, L, M, N, O, P),
    geometry: (
        A::Geometry, B::Geometry, C::Geometry, D::Geometry, E::Geometry, F::Geometry, G::Geometry,
        H::Geometry, I::Geometry, J::Geometry, K::Geometry, L::Geometry, M::Geometry, N::Geometry,
        O::Geometry, P::Geometry,
    ),
    replies: Seq<ResOp>,
    response: (
        A::Response, B::Response, C::Response, D::Response, E::Response, F::Response, G::Response,
        H::Response, I::Response, J::Response, K::Response, L::Response, M::Response, N::Response,
        O::Response, P::Response,
    ),
)
    ensures
        ({
            let before = (
                request.0, request.1, request.2, request.3, request.4, request.5, request.6,
                request.7, request.8, request.9, request.10, request.11, request.12, request.13,
                request.14,
            );
            let shape = (
                geometry.0, geometry.1, geometry.2, geometry.3, geometry.4, geometry.5, geometry.6,
                geometry.7, geometry.8, geometry.9, geometry.10, geometry.11, geometry.12,
                geometry.13, geometry.14,
            );
            let gives = (
                response.0, response.1, response.2, response.3, response.4, response.5, response.6,
                response.7, response.8, response.9, response.10, response.11, response.12,
                response.13, response.14,
            );
            let n = <(A, B, C, D, E, F, G, H, I, J, K, L, M, N, O) as CompoundRequest>::expected(shape).len() as int;
            &&& request.operations() == before.operations() + request.15.operations()
            &&& request.has_shape(geometry) <==> before.has_shape(shape)
                && request.15.has_shape(geometry.15)
            &&& <(A, B, C, D, E, F, G, H, I, J, K, L, M, N, O, P) as CompoundRequest>::expected(geometry)
                == <(A, B, C, D, E, F, G, H, I, J, K, L, M, N, O) as CompoundRequest>::expected(shape)
                + P::expected(geometry.15)
            &&& n <= replies.len() ==> (<(A, B, C, D, E, F, G, H, I, J, K, L, M, N, O, P) as CompoundRequest>::answered(
                geometry,
                replies,
                response,
            ) <==> {
                &&& <(A, B, C, D, E, F, G, H, I, J, K, L, M, N, O) as CompoundRequest>::answered(shape, replies.take(n), gives)
                &&& P::answered(geometry.15, replies.skip(n), response.15)
            })
        }),
{
    let before = (
        request.0, request.1, request.2, request.3, request.4, request.5, request.6, request.7,
        request.8, request.9, request.10, request.11, request.12, request.13, request.14,
    );
    let shape = (
        geometry.0, geometry.1, geometry.2, geometry.3, geometry.4, geometry.5, geometry.6,
        geometry.7, geometry.8, geometry.9, geometry.10, geometry.11, geometry.12, geometry.13,
        geometry.14,
    );
    let gives = (
        response.0, response.1, response.2, response.3, response.4, response.5, response.6,
        response.7, response.8, response.9, response.10, response.11, response.12, response.13,
        response.14,
    );
    let rest = (
        request.1, request.2, request.3, request.4, request.5, request.6, request.7, request.8,
        request.9, request.10, request.11, request.12, request.13, request.14, request.15,
    );
    let rest_shape = (
        geometry.1, geometry.2, geometry.3, geometry.4, geometry.5, geometry.6, geometry.7,
        geometry.8, geometry.9, geometry.10, geometry.11, geometry.12, geometry.13, geometry.14,
        geometry.15,
    );
    let rest_gives = (
        response.1, response.2, response.3, response.4, response.5, response.6, response.7,
        response.8, response.9, response.10, response.11, response.12, response.13, response.14,
        response.15,
    );
    let first = A::expected(geometry.0).len() as int;
    let n = <(A, B, C, D, E, F, G, H, I, J, K, L, M, N, O) as CompoundRequest>::expected(shape).len() as int;
    lemma_tuple_of_15(rest, rest_shape, replies.skip(first), rest_gives);
    assert(request.operations() =~= before.operations() + request.15.operations());
    assert(<(A, B, C, D, E, F, G, H, I, J, K, L, M, N, O, P) as CompoundRequest>::expected(geometry)
        =~= <(A, B, C, D, E, F, G, H, I, J, K, L, M, N, O) as CompoundRequest>::expected(shape) + P::expected(geometry.15));
    if n <= replies.len() {
        assert(replies.take(n).take(first) =~= replies.take(first));
        assert(replies.take(n).skip(first) =~= replies.skip(first).take(n - first));
        assert(replies.skip(first).skip(n - first) =~= replies.skip(n));
    }
}

/// The last of 17 members is asked for behind the others, and gives what the replies behind
/// those to the others give.
pub proof fn lemma_tuple_of_17<
    A: CompoundRequest,
    B: CompoundRequest,
    C: CompoundRequest,
    D: CompoundRequest,
    E: CompoundRequest,
    F: CompoundRequest,
    G: CompoundRequest,
    H: CompoundRequest,
    I: CompoundRequest,
    J: CompoundRequest,
    K: CompoundRequest,
    L: CompoundRequest,
    M: CompoundRequest,
    N: CompoundRequest,
    O: CompoundRequest,
    P: CompoundRequest,
    Q: CompoundRequest,
>(
    request: (A, B, C, D, E, F, G, H, I, J, K, L, M, N, O, P, Q),
    geometry: (
        A::Geometry, B::Geometry, C::Geometry, D::Geometry, E::Geometry, F::Geometry, G::Geometry,
        H::Geometry, I::Geometry, J::Geometry, K::Geometry, L::Geometry, M::Geometry, N::Geometry,
        O::Geometry, P::Geometry, Q::Geometry,
    ),
    replies: Seq<ResOp>,
    response: (
        A::Response, B::Response, C::Response, D::Response, E::Response, F::Response, G::Response,
        H::Response, I::Response, J::Response, K::Response, L::Response, M::Response, N::Response,
        O::Response, P::Response, Q::Response,
    ),
)
    ensures
        ({
            let before = (
                request.0, request.1, request.2, request.3, request.4, request.5, request.6,
                request.7, request.8, request.9, request.10, request.11, request.12, request.13,
                request.14, request.15,
            );
            let shape = (
                geometry.0, geometry.1, geometry.2, geometry.3, geometry.4, geometry.5, geometry.6,
                geometry.7, geometry.8, geometry.9, geometry.10, geometry.11, geometry.12,
                geometry.13, geometry.14, geometry.15,
            );
            let gives = (
                response.0, response.1, response.2, response.3, response.4, response.5, response.6,
                response.7, response.8, response.9, response.10, response.11, response.12,
                response.13, response.14, response.15,
            );
            let n = <(A, B, C, D, E, F, G, H, I, J, K, L, M, N, O, P) as CompoundRequest>::expected(shape).len() as int;
            &&& request.operations() == before.operations() + request.16.operations()
            &&& request.has_shape(geometry) <==> before.has_shape(shape)
                && request.16.has_shape(geometry.16)
            &&& <(A, B, C, D, E, F, G, H, I, J, K, L, M, N, O, P, Q) as CompoundRequest>::expected(geometry)
                == <(A, B, C, D, E, F, G, H, I, J, K, L, M, N, O, P) as CompoundRequest>::expected(shape)
                + Q::expected(geometry.16)
            &&& n <= replies.len() ==> (<(A, B, C, D, E, F, G, H, I, J, K, L, M, N, O, P, Q) as CompoundRequest>::answered(
                geometry,
                replies,
                response,
            ) <==> {
                &&& <(A, B, C, D, E, F, G, H, I, J, K, L, M, N, O, P) as CompoundRequest>::answered(shape, replies.take(n), gives)
                &&& Q::answered(geometry.16, replies.skip(n), response.16)
            })
        }),
{
    let before = (
        request.0, request.1, request.2, request.3, request.4, request.5, request.6, request.7,
        request.8, request.9, request.10, request.11, request.12, request.13, request.14,
        request.15,
    );
    let shape = (
        geometry.0, geometry.1, geometry.2, geometry.3, geometry.4, geometry.5, geometry.6,
        geometry.7, geometry.8, geometry.9, geometry.10, geometry.11, geometry.12, geometry.13,
        geometry.14, geometry.15,
    );
    let gives = (
        response.0, response.1, response.2, response.3, response.4, response.5, response.6,
        response.7, response.8, response.9, response.10, response.11, response.12, response.13,
        response.14, response.15,
    );
    let rest = (
        request.1, request.2, request.3, request.4, request.5, request.6, request.7, request.8,
        request.9, request.10, request.11, request.12, request.13, request.14, request.15,
        request.16,
    );
    let rest_shape = (
        geometry.1, geometry.2, geometry.3, geometry.4, geometry.5, geometry.6, geometry.7,
        geometry.8, geometry.9, geometry.10, geometry.11, geometry.12, geometry.13, geometry.14,
        geometry.15, geometry.16,
    );
    let rest_gives = (
        response.1, response.2, response.3, response.4, response.5, response.6, response.7,
        response.8, response.9, response.10, response.11, response.12, response.13, response.14,
        response.15, response.16,
    );
    let first = A::expected(geometry.0).len() as int;
    let n = <(A, B, C, D, E, F, G, H, I, J, K, L, M, N, O, P) as CompoundRequest>::expected(shape).len() as int;
    lemma_tuple_of_16(rest, rest_shape, replies.skip(first), rest_gives);
    assert(request.operations() =~= before.operations() + request.16.operations());
    assert(<(A, B, C, D, E, F, G, H, I, J, K, L, M, N, O, P, Q) as CompoundRequest>::expected(geometry)
        =~= <(A, B, C, D, E, F, G, H, I, J, K, L, M, N, O, P) as CompoundRequest>::expected(shape) + Q::expected(geometry.16));
    if n <= replies.len() {
        assert(replies.take(n).take(first) =~= replies.take(first));
        assert(replies.take(n).skip(first) =~= replies.skip(first).take(n - first));
        assert(replies.skip(first).skip(n - first) =~= replies.skip(n));
    }
}

} // verus!
