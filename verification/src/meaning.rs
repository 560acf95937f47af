//! What the words of the contracts come to, in the values that are sent and received.
//!
//! Each law here speaks of plain values: the operations of a request, the replies to them, the
//! fields of a state.
use crate::attrs::{attr_id_sets, attr_ids, attr_sizes, has_root_attrs};
use crate::call::{compound_failure, res_ops_debug, Call, CompoundReply, Pending};
use crate::client::{is_anonymous, ClientView};
use crate::compound::{
    expected_all, have_shapes, operations_all, operations_of, replies_failure, replies_left,
    reply_failure, reply_start, res_op_debug, unexpected_reply, CompoundOp, CompoundRequest,
    ReturnSecond,
};
use crate::error::{Error, ErrorView};
use crate::handshake::{
    asks_root_attrs, lacks_root_attrs, names_client, opens_session, Learning,
};
use crate::laws::answers_all;
use crate::ops::{ArgOp, CompoundRes, OperationId, ResOp};
use crate::path::{is_name, part_names, texts, PathPart};
use crate::protocol::{
    ClientId, ClientOwner, Cookie, CreateSessionRes, DirectoryEntry, FileAttributes, FileHandle,
    StateId,
};
use crate::transfer::{
    resized, ReadAllPart, ReadAllView, ReadDirPart, ReadDirView, WriteAllView, WriteAnswer,
};
use vstd::prelude::*;

verus! {

/// A handle is its bytes, all of them and nothing else.
pub proof fn lemma_handle_is_its_bytes(handle: FileHandle)
    ensures
        handle@.len() == handle.0@.len(),
        forall|i: int| 0 <= i < handle.0@.len() ==> handle@[i] == #[trigger] handle.0@[i],
{
}

/// Every request is sent under minor version 1, with the same tag and with the operations that it
/// asks for and no others, and waits for one reply to each of them.
pub proof fn lemma_request_as_sent<R: CompoundRequest>(call: Call<R>, ops: Seq<ArgOp>)
    requires
        call.asks(ops),
    ensures
        call.args.minor_version == 1,
        call.args.tag@ == seq!['T', 'e', 's', 't', ' ', 'C', 'l', 'i', 'e', 'n', 't'],
        call.args.arg_array@.len() == ops.len(),
        forall|i: int| 0 <= i < ops.len() ==> call.args.arg_array@[i] == #[trigger] ops[i],
        call.pending.expected().len() == ops.len(),
        forall|i: int|
            0 <= i < ops.len() ==> call.pending.expected()[i] == (#[trigger] ops[i]).operation(),
{
    reveal_strlit("Test Client");
    assert(call.args.tag@ =~= seq!['T', 'e', 's', 't', ' ', 'C', 'l', 'i', 'e', 'n', 't']);
}

/// The kinds of operations are the kinds of each of them.
pub proof fn lemma_kinds_of_operations(ops: Seq<ArgOp>)
    ensures
        operations_of(ops).len() == ops.len(),
        forall|i: int|
            0 <= i < ops.len() ==> operations_of(ops)[i] == (#[trigger] ops[i]).operation(),
{
}

/// A request of a session starts with the session and the number of the request, in the only
/// slot, and nothing is to be kept for a repetition.
pub proof fn lemma_sequence_operation(client: ClientView)
    ensures
        client.sequence_op() matches ArgOp::Sequence(args) && {
            &&& args.session_id.0 == client.session.session_id.0
            &&& args.sequence_id.0 == client.sequence_id.0
            &&& args.slot_id.0 == 0
            &&& args.highest_slot_id.0 == 0
            &&& !args.cache_this
        },
{
}

/// A request uses up one number of the session and changes nothing else of the client. A session
/// has a number left until the largest one.
pub proof fn lemma_one_number_per_request(client: ClientView)
    ensures
        client.can_call() <==> client.sequence_id.0 < 0xffff_ffff,
        client.can_call() ==> {
            let after = client.after_call();
            &&& after.sequence_id.0 == client.sequence_id.0 + 1
            &&& after.session == client.session
            &&& after.client_id == client.client_id
            &&& after.client_owner == client.client_owner
            &&& after.max_read == client.max_read
            &&& after.max_write == client.max_write
            &&& after.supported_attrs == client.supported_attrs
        },
{
}

/// A request that runs an operation on a file names that file by its whole handle: it is the
/// sequence operation, the handle, and the operation.
pub proof fn lemma_request_on_file<R: CompoundRequest>(
    client: ClientView,
    call: Call<R>,
    handle: FileHandle,
    op: ArgOp,
)
    requires
        call.asks(client.file_ops(handle, op)),
    ensures
        call.args.minor_version == 1,
        call.args.arg_array@.len() == 3,
        call.args.arg_array@[0] matches ArgOp::Sequence(args) && args.session_id
            == client.session.session_id && args.sequence_id == client.sequence_id,
        call.args.arg_array@[1] matches ArgOp::PutFh(args) && args.object == handle
            && args.object.0@ == handle.0@,
        call.args.arg_array@[2] == op,
{
}

/// A request that runs an operation in a directory names the directory by its whole handle and
/// asks for the handle of what the operation leads to.
pub proof fn lemma_request_in_directory<R: CompoundRequest>(
    client: ClientView,
    call: Call<R>,
    dir: FileHandle,
    op: ArgOp,
)
    requires
        call.asks(client.entry_ops(dir, op)),
    ensures
        call.args.minor_version == 1,
        call.args.arg_array@.len() == 4,
        call.args.arg_array@[0] matches ArgOp::Sequence(args) && args.session_id
            == client.session.session_id && args.sequence_id == client.sequence_id,
        call.args.arg_array@[1] matches ArgOp::PutFh(args) && args.object == dir && args.object.0@
            == dir.0@,
        call.args.arg_array@[2] == op,
        call.args.arg_array@[3] is GetFh,
{
}

/// Work on a file that takes several requests names the file by its whole handle in each of them.
pub proof fn lemma_request_of_transfer<R: CompoundRequest>(
    client: ClientView,
    call: Call<R>,
    handle: Seq<u8>,
    op: ArgOp,
)
    requires
        client.runs_on(call, handle, op),
    ensures
        call.args.minor_version == 1,
        call.args.arg_array@.len() == 3,
        call.args.arg_array@[1] matches ArgOp::PutFh(args) && {
            &&& args.object.0@.len() == handle.len()
            &&& forall|i: int| 0 <= i < handle.len() ==> args.object.0@[i] == #[trigger] handle[i]
        },
        call.args.arg_array@[2] == op,
{
}

/// Looking up a path goes from the root through each of the names in turn, and then asks for the
/// handle.
pub proof fn lemma_look_up_goes_through_names(
    client: ClientView,
    ops: Seq<ArgOp>,
    names: Seq<Seq<char>>,
)
    requires
        client.look_up_ops(ops, names),
    ensures
        ops.len() == names.len() + 3,
        ops[0] matches ArgOp::Sequence(args) && args.session_id == client.session.session_id
            && args.sequence_id == client.sequence_id,
        ops[1] is PutRootFh,
        forall|i: int|
            2 <= i < ops.len() - 1 ==> (#[trigger] ops[i] matches ArgOp::LookUp(args)
                && args.object_name@ == names[i - 2]),
        ops[ops.len() - 1] is GetFh,
{
    assert forall|i: int| 2 <= i < ops.len() - 1 implies (
    #[trigger] ops[i] matches ArgOp::LookUp(args) && args.object_name@ == names[i - 2]) by {
        assert(ops[(i - 2) + 2] == ops[i]);
    }
}

/// Two joined paths lead through the names of the first and then through those of the second.
pub proof fn lemma_names_of_joined_parts(first: Seq<PathPart>, second: Seq<PathPart>)
    ensures
        part_names(first + second) == part_names(first) + part_names(second),
    decreases second.len(),
{
    if second.len() == 0 {
        assert(first + second =~= first);
    } else {
        assert((first + second).drop_last() =~= first + second.drop_last());
        lemma_names_of_joined_parts(first, second.drop_last());
    }
    assert(part_names(first + second) =~= part_names(first) + part_names(second));
}

/// A part that is a name has that name, and no other part has any; nor has a path without parts.
pub proof fn lemma_names_of_one_part(part: PathPart)
    ensures
        part_names(Seq::empty()) == Seq::<Seq<char>>::empty(),
        part matches PathPart::Normal(name) ==> part_names(seq![part]) == seq![name@],
        !(part is Normal) ==> part_names(seq![part]) == Seq::<Seq<char>>::empty(),
{
    reveal_with_fuel(part_names, 2);
    assert(seq![part].drop_last() =~= Seq::<PathPart>::empty());
    assert(part_names(Seq::empty()) =~= Seq::<Seq<char>>::empty());
    if let PathPart::Normal(name) = part {
        assert(part_names(seq![part]) =~= seq![name@]);
    }
}

/// Every name in a split path is looked up: there are as many names as parts that are names.
pub proof fn lemma_every_name_counts(parts: Seq<PathPart>)
    ensures
        part_names(parts).len() == parts.filter(|part: PathPart| part is Normal).len(),
    decreases parts.len(),
{
    reveal(Seq::filter);
    if parts.len() > 0 {
        lemma_every_name_counts(parts.drop_last());
    }
}

/// The names that strings hold are what each of them holds.
pub proof fn lemma_texts_of_strings(names: Seq<String>)
    ensures
        texts(names).len() == names.len(),
        forall|i: int| 0 <= i < names.len() ==> texts(names)[i] == (#[trigger] names[i])@,
{
}

/// The only pieces of a path that name no entry are the empty one, the directory itself and its
/// parent.
pub proof fn lemma_what_is_a_name(piece: Seq<char>)
    ensures
        is_name(piece) <==> !(piece.len() == 0 || (piece.len() == 1 && piece[0] == '.') || (
        piece.len() == 2 && piece[0] == '.' && piece[1] == '.')),
{
    if piece.len() == 1 && piece[0] == '.' {
        assert(piece =~= seq!['.']);
    }
    if piece.len() == 2 && piece[0] == '.' && piece[1] == '.' {
        assert(piece =~= seq!['.', '.']);
    }
}

/// The anonymous state is all zeros.
pub proof fn lemma_anonymous_state_is_zero(state_id: StateId)
    requires
        is_anonymous(state_id),
    ensures
        state_id.sequence_id == 0,
        state_id.other@.len() == 12,
        forall|i: int| 0 <= i < 12 ==> #[trigger] state_id.other@[i] == 0,
{
}

/// What an error says is what it holds.
pub proof fn lemma_error_says_what_it_holds(error: Error)
    ensures
        error matches Error::SunRpc(e) ==> error@ == ErrorView::SunRpc(e),
        error matches Error::Protocol(e) ==> error@ == ErrorView::Protocol(e),
        error matches Error::Lock(e) ==> error@ == ErrorView::Lock(e),
        error matches Error::Io(e) ==> error@ == ErrorView::Io(e),
        error matches Error::CompoundResponseMismatch(text) ==> error@
            == ErrorView::CompoundResponseMismatch(text@),
{
}

/// A failed exchange is reported as it is, and so is the status of a request that failed as a
/// whole, whatever else the reply holds.
pub proof fn lemma_failure_of_whole_request(
    expected: Seq<OperationId>,
    broken: sun_rpc_client::Error,
    refused: nfs4::StatusError,
    res: CompoundRes,
)
    ensures
        compound_failure(expected, Err(broken)) == Some(ErrorView::SunRpc(broken)),
        res.status == Err::<(), nfs4::StatusError>(refused) ==> compound_failure(
            expected,
            Ok(res),
        ) == Some(ErrorView::Protocol(refused)),
{
}

/// If the operations were run, the first one that is not answered or fails is reported.
pub proof fn lemma_failure_of_an_operation(expected: Seq<OperationId>, res: CompoundRes)
    requires
        res.status is Ok,
        replies_failure(expected, res.res_array@) is Some,
    ensures
        compound_failure(expected, Ok(res)) == replies_failure(expected, res.res_array@),
{
}

/// If all operations succeeded and replies are left over, those are reported.
pub proof fn lemma_failure_of_trailing_replies(expected: Seq<OperationId>, res: CompoundRes)
    requires
        res.status is Ok,
        res.res_array@.len() > expected.len(),
        answers_all(expected, res.res_array@.take(expected.len() as int)),
    ensures
        compound_failure(expected, Ok(res)) == Some(
            ErrorView::CompoundResponseMismatch(
                "trailing response: "@ + res_ops_debug(
                    res.res_array@.skip(expected.len() as int),
                ),
            ),
        ),
{
    lemma_front_is_enough(expected, res.res_array@);
}

proof fn lemma_front_is_enough(expected: Seq<OperationId>, replies: Seq<ResOp>)
    requires
        replies.len() >= expected.len(),
        answers_all(expected, replies.take(expected.len() as int)),
    ensures
        replies_failure(expected, replies) is None,
    decreases expected.len(),
{
    if expected.len() > 0 {
        let front = replies.take(expected.len() as int);
        assert(front[0] == replies[0]);
        let later = expected.skip(1);
        let rest = replies.skip(1);
        assert forall|i: int| 0 <= i < later.len() implies (#[trigger] rest.take(
            later.len() as int,
        )[i]).operation() == later[i] && rest.take(later.len() as int)[i].failure() is None by {
            assert(rest.take(later.len() as int)[i] == front[i + 1]);
        }
        lemma_front_is_enough(later, rest);
    }
}

/// What is wrong with one reply: it answers another operation, which is told with both, or the
/// operation failed, which the reply tells.
pub proof fn lemma_failure_of_one_reply(expected: OperationId, reply: ResOp)
    ensures
        reply.operation() == expected ==> reply_failure(expected, reply) == reply.failure(),
        reply.operation() != expected ==> reply_failure(expected, reply) == Some(
            ErrorView::CompoundResponseMismatch(
                "expected "@ + expected.spec_name() + ", got "@ + res_op_debug(reply),
            ),
        ),
        unexpected_reply(expected, reply) == "expected "@ + expected.spec_name() + ", got "@
            + res_op_debug(reply),
{
}

/// Replies are read up to and with the first one that fails; what stands behind it is left.
pub proof fn lemma_replies_behind_failure_are_left(
    expected: Seq<OperationId>,
    replies: Seq<ResOp>,
    i: int,
)
    requires
        0 <= i < expected.len(),
        i < replies.len(),
        forall|j: int| 0 <= j < i ==> reply_failure(#[trigger] expected[j], replies[j]) is None,
        reply_failure(expected[i], replies[i]) is Some,
    ensures
        replies_left(expected, replies) == replies.skip(i + 1),
    decreases i,
{
    if i > 0 {
        let later = expected.skip(1);
        assert forall|j: int| 0 <= j < i - 1 implies reply_failure(
            #[trigger] later[j],
            replies.skip(1)[j],
        ) is None by {
            assert(later[j] == expected[j + 1]);
        }
        assert(reply_failure(expected[0], replies[0]) is None);
        lemma_replies_behind_failure_are_left(later, replies.skip(1), i - 1);
        assert(replies.skip(1).skip(i) =~= replies.skip(i + 1));
    }
}

/// What a request gives is taken from all the replies to it.
pub proof fn lemma_response_is_from_replies<R: CompoundRequest>(
    pending: Pending<R>,
    reply: CompoundReply,
    response: R::Response,
)
    ensures
        pending.answered(reply, response) <==> (reply matches Ok(res) && R::answered(
            pending.geometry(),
            res.res_array@,
            response,
        )),
        pending.expected() == R::expected(pending.geometry()),
{
}

/// A request of one operation is that operation, waits for the reply to it, and gives what the
/// reply gives.
pub proof fn lemma_one_operation<T: CompoundOp>(request: T, replies: Seq<ResOp>, response: T::Res)
    ensures
        request.operations() == seq![request.arg_op()],
        <T as CompoundRequest>::expected(()) == seq![request.arg_op().operation()],
        <T as CompoundRequest>::answered((), replies, response) <==> T::gives(
            replies[0],
            response,
        ),
{
    request.lemma_arg_op();
}

/// Of two requests, the operations of the second follow those of the first, and what the second
/// gives is taken from the replies that follow those to the first.
pub proof fn lemma_second_is_returned<A: CompoundRequest, B: CompoundRequest>(
    request: ReturnSecond<A, B>,
    geometry: (A::Geometry, B::Geometry),
    replies: Seq<ResOp>,
    response: B::Response,
)
    ensures
        request.operations() == request.0.operations() + request.1.operations(),
        <ReturnSecond<A, B> as CompoundRequest>::expected(geometry) == A::expected(geometry.0)
            + B::expected(geometry.1),
        <ReturnSecond<A, B> as CompoundRequest>::answered(geometry, replies, response)
            <==> B::answered(
            geometry.1,
            replies.skip(A::expected(geometry.0).len() as int),
            response,
        ),
        request.has_shape(geometry) <==> request.0.has_shape(geometry.0) && request.1.has_shape(
            geometry.1,
        ),
{
}

/// A vector of one request is that request, and an empty vector asks for nothing.
pub proof fn lemma_vector_of_one<T: CompoundRequest>(item: T, geometry: T::Geometry)
    ensures
        operations_all(Seq::<T>::empty()) == Seq::<ArgOp>::empty(),
        operations_all(seq![item]) == item.operations(),
        expected_all::<T>(Seq::empty()) == Seq::<OperationId>::empty(),
        expected_all::<T>(seq![geometry]) == T::expected(geometry),
        have_shapes(seq![item], seq![geometry]) <==> item.has_shape(geometry),
{
    reveal_with_fuel(operations_all, 2);
    reveal_with_fuel(expected_all, 2);
    assert(seq![item].drop_last() =~= Seq::<T>::empty());
    assert(seq![geometry].drop_last() =~= Seq::<T::Geometry>::empty());
    assert(operations_all(seq![item]) =~= item.operations());
    assert(expected_all::<T>(seq![geometry]) =~= T::expected(geometry));
    if have_shapes(seq![item], seq![geometry]) {
        assert(seq![item][0].has_shape(seq![geometry][0]));
    }
}

/// A vector of requests asks for what its items ask for, in order, has their shapes, and waits
/// for the replies to them.
pub proof fn lemma_vector_asks_for_its_items<T: CompoundRequest>(
    request: Vec<T>,
    geometry: Vec<T::Geometry>,
)
    ensures
        request.operations() == operations_all(request@),
        request.has_shape(geometry) <==> {
            &&& geometry@.len() == request@.len()
            &&& forall|i: int|
                0 <= i < request@.len() ==> (#[trigger] request@[i]).has_shape(geometry@[i])
        },
        <Vec<T> as CompoundRequest>::expected(geometry) == expected_all::<T>(geometry@),
{
}

/// A vector of requests gives one response for each item, taken from the replies to that item,
/// which follow those to the items before it.
pub proof fn lemma_vector_gives_one_each<T: CompoundRequest>(
    geometry: Vec<T::Geometry>,
    replies: Seq<ResOp>,
    response: Vec<T::Response>,
    i: int,
)
    requires
        <Vec<T> as CompoundRequest>::answered(geometry, replies, response),
        0 <= i < geometry@.len(),
    ensures
        response@.len() == geometry@.len(),
        reply_start::<T>(geometry@, 0) == 0,
        reply_start::<T>(geometry@, i + 1) == reply_start::<T>(geometry@, i) + T::expected(
            geometry@[i],
        ).len(),
        T::answered(
            geometry@[i],
            replies.subrange(reply_start::<T>(geometry@, i), reply_start::<T>(geometry@, i + 1)),
            response@[i],
        ),
{
    assert(geometry@.take(0) =~= Seq::<T::Geometry>::empty());
    assert(geometry@.take(i + 1).drop_last() =~= geometry@.take(i));
    assert(geometry@.take(i + 1).last() == geometry@[i]);
    assert(response@[i] == response@[i]);
}

/// A vector of operations gives what each reply gives, in order.
pub proof fn lemma_vector_of_operations_gives<T: CompoundOp>(
    geometry: Vec<()>,
    replies: Seq<ResOp>,
    response: Vec<T::Res>,
    i: int,
)
    requires
        <Vec<T> as CompoundRequest>::answered(geometry, replies, response),
        replies.len() == geometry@.len(),
        0 <= i < geometry@.len(),
    ensures
        response@.len() == replies.len(),
        T::gives(replies[i], response@[i]),
{
    lemma_vector_gives_one_each::<T>(geometry, replies, response, i);
    lemma_start_of_operation::<T>(geometry@, i);
}

proof fn lemma_start_of_operation<T: CompoundOp>(geometry: Seq<()>, i: int)
    requires
        0 <= i <= geometry.len(),
    ensures
        reply_start::<T>(geometry, i) == i,
    decreases i,
{
    if i == 0 {
        assert(geometry.take(0) =~= Seq::<()>::empty());
    } else {
        lemma_start_of_operation::<T>(geometry, i - 1);
        assert(geometry.take(i).drop_last() =~= geometry.take(i - 1));
    }
}

/// A client names itself as it is called, with all bytes of the name.
pub proof fn lemma_client_names_itself(op: ArgOp, owner: ClientOwner)
    requires
        names_client(op, owner),
    ensures
        op matches ArgOp::ExchangeId(args) && {
            &&& args.client_owner.verifier.0 == owner.verifier.0
            &&& args.client_owner.owner_id@ == owner.owner_id@
            &&& args.flags == 0
            &&& args.state_protect is Unprotected
            &&& args.client_impl_id is None
        },
{
}

/// A session is opened for the client by the name that the server gave to it, all 64 bits of it,
/// with the limits that the client proposes.
pub proof fn lemma_session_is_for_named_client(op: ArgOp, client_id: ClientId)
    requires
        opens_session(op, client_id),
    ensures
        op matches ArgOp::CreateSession(args) && {
            &&& args.client_id.0 == client_id.0
            &&& args.sequence_id.0 == 1
            &&& args.flags == 0
            &&& args.program == 0x40000000
            &&& args.security_parameters@.len() == 0
            &&& args.fore_channel_attrs.header_pad_size == 0
            &&& args.fore_channel_attrs.max_request_size == 1049620
            &&& args.fore_channel_attrs.max_response_size == 1049480
            &&& args.fore_channel_attrs.max_response_size_cached == 7584
            &&& args.fore_channel_attrs.max_operations == 16
            &&& args.fore_channel_attrs.max_requests == 64
            &&& args.fore_channel_attrs.rdma_ird is None
            &&& args.back_channel_attrs.header_pad_size == 0
            &&& args.back_channel_attrs.max_request_size == 4096
            &&& args.back_channel_attrs.max_response_size == 4096
            &&& args.back_channel_attrs.max_response_size_cached == 0
            &&& args.back_channel_attrs.max_operations == 16
            &&& args.back_channel_attrs.max_requests == 16
            &&& args.back_channel_attrs.rdma_ird is None
        },
{
}

/// A new client is in the session that the server opened, and has made no request and learnt
/// nothing.
pub proof fn lemma_new_client(
    session: CreateSessionRes,
    client_id: ClientId,
    client_owner: ClientOwner,
)
    ensures
        ({
            let client = ClientView::new(session, client_id, client_owner);
            &&& client.session == session
            &&& client.sequence_id.0 == 1
            &&& client.client_id == client_id
            &&& client.client_owner == client_owner
            &&& client.max_read == 0
            &&& client.max_write == 0
            &&& forall|id: u32| !client.supported_attrs.contains(id)
        }),
{
}

/// To learn what the server supports, a client asks for three attributes of the root.
pub proof fn lemma_attributes_of_root_are_asked(ops: Seq<ArgOp>, client: ClientView)
    requires
        asks_root_attrs(ops, client),
    ensures
        ops.len() == 4,
        ops[0] matches ArgOp::Sequence(args) && args.session_id == client.session.session_id
            && args.sequence_id == client.sequence_id,
        ops[1] matches ArgOp::ReclaimComplete(args) && !args.one_fs,
        ops[2] is PutRootFh,
        ops[3] matches ArgOp::GetAttr(args) && forall|id: u32|
            attr_ids(args.attr_request).contains(id) <==> id == 0 || id == 30 || id == 31,
{
}

/// What a client learns is what the attributes of the root say; the rest stays as it is.
pub proof fn lemma_client_learns_attributes(client: ClientView, attrs: FileAttributes)
    ensures
        client.learnt(attrs).max_read == attr_sizes(attrs)[30u32],
        client.learnt(attrs).max_write == attr_sizes(attrs)[31u32],
        client.learnt(attrs).supported_attrs == attr_id_sets(attrs)[0u32],
        client.learnt(attrs).session == client.session,
        client.learnt(attrs).sequence_id == client.sequence_id,
        client.learnt(attrs).client_id == client.client_id,
        client.learnt(attrs).client_owner == client.client_owner,
{
}

/// The attributes of the root tell enough if and only if the three that were asked for are there,
/// whatever their values.
pub proof fn lemma_what_root_has_to_tell(attrs: FileAttributes)
    ensures
        has_root_attrs(attrs) <==> attr_id_sets(attrs).contains_key(0u32) && attr_sizes(
            attrs,
        ).contains_key(30u32) && attr_sizes(attrs).contains_key(31u32),
{
}

/// A reply lacks attributes of the root only if it ends with attributes, and those do not tell
/// enough. The client can read any other reply, and any that fails.
pub proof fn lemma_what_reply_lacks(learning: Learning, reply: CompoundReply)
    ensures
        lacks_root_attrs(reply) <==> (reply matches Ok(res) && ({
            &&& res.res_array@.len() > 0
            &&& res.res_array@.last() matches ResOp::GetAttr(Ok(got)) && !(attr_id_sets(
                got.object_attributes,
            ).contains_key(0u32) && attr_sizes(got.object_attributes).contains_key(30u32)
                && attr_sizes(got.object_attributes).contains_key(31u32))
        })),
        learning.fails_or_tells(reply) <==> (compound_failure(
            learning.pending().expected(),
            reply,
        ) is Some || !lacks_root_attrs(reply)),
{
}

/// Reading goes on behind the data that has come, in the same file.
pub proof fn lemma_read_goes_on_behind_data(work: ReadAllView, data: Seq<u8>)
    ensures
        work.next(data).offset == work.offset + data.len(),
        work.next(data).handle == work.handle,
{
}

/// Nothing has come from the source when writing starts, at the start of the file.
pub proof fn lemma_write_starts_at_start(handle: Seq<u8>)
    ensures
        WriteAllView::start(handle).handle == handle,
        WriteAllView::start(handle).offset == 0,
        WriteAllView::start(handle).buf.len() == 0,
{
}

/// All bytes that the source gave are kept to be written, as they are, at the place and in the
/// file that they belong to; where the buffer was too short for them, zeros take their place.
pub proof fn lemma_given_bytes_are_kept(work: WriteAllView, buf: Seq<u8>, amount: nat)
    ensures
        work.filled(buf, amount).handle == work.handle,
        work.filled(buf, amount).offset == work.offset,
        work.filled(buf, amount).amount_read == amount,
        work.filled(buf, amount).buf.len() == amount,
        resized(buf, amount).len() == amount,
        forall|i: int|
            0 <= i < amount && i < buf.len() ==> #[trigger] work.filled(buf, amount).buf[i]
                == buf[i],
        forall|i: int|
            buf.len() <= i < amount ==> #[trigger] work.filled(buf, amount).buf[i] == 0,
{
}

/// What the server has not written is left, in order and without change, and goes to the same
/// place; once all is written, the next data goes behind it.
pub proof fn lemma_unwritten_bytes_are_left(work: WriteAllView, count: int)
    requires
        0 <= count <= work.buf.len(),
    ensures
        work.written(count).handle == work.handle,
        work.written(count).buf.len() == work.buf.len() - count,
        forall|i: int|
            0 <= i < work.buf.len() - count ==> #[trigger] work.written(count).buf[i]
                == work.buf[count + i],
        count < work.buf.len() ==> work.written(count).offset == work.offset && work.written(
            count,
        ).amount_read == work.amount_read,
        count == work.buf.len() ==> work.written(count).offset == work.offset + work.amount_read,
{
}

/// Which replies of a server work can go on with.
pub proof fn lemma_what_work_can_take(part: ReadAllPart, answer: WriteAnswer, list: ReadDirPart)
    ensures
        part.fits() <==> part.work().offset + part.res().data@.len() <= 0xffff_ffff_ffff_ffff,
        answer.fits() <==> (answer.count() < answer.work().buf.len() || (answer.count()
            == answer.work().buf.len() && answer.work().offset + answer.work().amount_read
            <= 0xffff_ffff_ffff_ffff)),
        list.ends_or_goes_on() <==> (list.list().eof || list.work().entries.len() > 0
            || list.list().entries@.len() > 0),
{
}

/// A listing starts with no entries before the first one, and keeps what was asked for.
pub proof fn lemma_listing_starts_at_start(handle: Seq<u8>, attr_request: Set<u32>)
    ensures
        ReadDirView::start(handle, attr_request).handle == handle,
        ReadDirView::start(handle, attr_request).attr_request == attr_request,
        ReadDirView::start(handle, attr_request).cookie == Cookie(0),
        ReadDirView::start(handle, attr_request).entries.len() == 0,
{
}

/// A listing keeps all entries that have come, in order, and goes on behind the last of them.
pub proof fn lemma_listing_keeps_entries(work: ReadDirView, more: Seq<DirectoryEntry>)
    ensures
        work.next(more).handle == work.handle,
        work.next(more).attr_request == work.attr_request,
        work.next(more).entries.len() == work.entries.len() + more.len(),
        forall|i: int|
            0 <= i < work.entries.len() ==> #[trigger] work.next(more).entries[i]
                == work.entries[i],
        forall|i: int|
            0 <= i < more.len() ==> work.next(more).entries[work.entries.len() + i]
                == #[trigger] more[i],
        more.len() > 0 ==> work.next(more).cookie == more[more.len() - 1].cookie,
        more.len() == 0 && work.entries.len() > 0 ==> work.next(more).cookie
            == work.entries[work.entries.len() - 1].cookie,
{
}

} // verus!
