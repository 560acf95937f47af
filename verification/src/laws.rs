//! What holds of the library across its functions.
use crate::attrs::{
    attr_id_sets, attr_sizes, MAX_READ, MAX_WRITE, SUPPORTED_ATTRS, TIME_ACCESS_SET,
    TIME_MODIFY_SET,
};
use crate::call::{compound_failure, Call, CompoundReply};
use crate::client::{ClientView, ACCESS_ALL};
use crate::compound::{operations_of, replies_failure, reply_failure, CompoundRequest};
use crate::error::ErrorView;
use crate::ops::{ArgOp, OperationId, ResOp};
use crate::protocol::{
    ClientId, ClientOwner, Cookie, CreateSessionRes, DirectoryEntry, DirectoryList,
    FileAttributes, ReadRes, SequenceId,
};
use crate::transfer::{resized, ReadAllView, ReadDirView, WriteAllView};
use vstd::prelude::*;

verus! {

/// Whether `replies` answer `expected` in order, one successful reply to each operation.
pub open spec fn answers_all(expected: Seq<OperationId>, replies: Seq<ResOp>) -> bool {
    &&& replies.len() == expected.len()
    &&& forall|i: int|
        0 <= i < expected.len() ==> (#[trigger] replies[i]).operation() == expected[i]
            && replies[i].failure() is None
}

/// The first operation that is not answered, or whose answer fails, decides the error; what is
/// wrong behind it does not matter.
pub proof fn lemma_first_failure_decides(
    expected: Seq<OperationId>,
    replies: Seq<ResOp>,
    i: int,
)
    requires
        0 <= i < expected.len(),
        i <= replies.len(),
        forall|j: int| 0 <= j < i ==> reply_failure(#[trigger] expected[j], replies[j]) is None,
        i < replies.len() ==> reply_failure(expected[i], replies[i]) is Some,
    ensures
        replies_failure(expected, replies) == if i == replies.len() {
            Some(ErrorView::CompoundResponseMismatch("too few replies"@))
        } else {
            reply_failure(expected[i], replies[i])
        },
    decreases i,
{
    if i > 0 {
        let later = expected.skip(1);
        assert forall|j: int| 0 <= j < i - 1 implies reply_failure(
            #[trigger] later[j],
            replies.skip(1)[j],
        ) is None by {
            assert(later[j] == expected[j + 1]);
        }
        assert(reply_failure(expected[0], replies[0]) is None);
        lemma_first_failure_decides(later, replies.skip(1), i - 1);
    }
}

proof fn lemma_no_failure_iff(expected: Seq<OperationId>, replies: Seq<ResOp>)
    ensures
        replies_failure(expected, replies) is None <==> replies.len() >= expected.len() && (forall|
            i: int,
        |
            0 <= i < expected.len() ==> reply_failure(expected[i], #[trigger] replies[i]) is None),
    decreases expected.len(),
{
    if expected.len() > 0 && replies.len() > 0 {
        let later = expected.skip(1);
        let rest = replies.skip(1);
        lemma_no_failure_iff(later, rest);
        if replies_failure(expected, replies) is None {
            assert forall|i: int| 0 <= i < expected.len() implies reply_failure(
                expected[i],
                #[trigger] replies[i],
            ) is None by {
                if i > 0 {
                    assert(rest[i - 1] == replies[i]);
                }
            }
        }
        if replies.len() >= expected.len() && forall|i: int|
            0 <= i < expected.len() ==> reply_failure(expected[i], #[trigger] replies[i]) is None {
            assert(reply_failure(expected[0], replies[0]) is None);
            assert forall|i: int| 0 <= i < later.len() implies reply_failure(
                later[i],
                #[trigger] rest[i],
            ) is None by {
                assert(rest[i] == replies[i + 1]);
            }
        }
    }
}

/// A compound request succeeds if and only if the exchange works, the server reports success
/// for the request as a whole, and every operation is answered in order by one successful
/// reply, with no reply left over.
pub proof fn lemma_compound_succeeds_iff(expected: Seq<OperationId>, reply: CompoundReply)
    ensures
        compound_failure(expected, reply) is None <==> (reply matches Ok(res) && res.status is Ok
            && answers_all(expected, res.res_array@)),
{
    if let Ok(res) = reply {
        lemma_no_failure_iff(expected, res.res_array@);
    }
}

/// A call succeeds if and only if the exchange works, the server reports success for the request
/// as a whole, and every operation that was asked for is answered, in the order in which they
/// were asked for.
pub proof fn lemma_call_succeeds_iff<R: CompoundRequest>(
    call: Call<R>,
    ops: Seq<ArgOp>,
    reply: CompoundReply,
)
    requires
        call.asks(ops),
    ensures
        compound_failure(call.pending.expected(), reply) is None <==> (reply matches Ok(res) && {
            let replies = res.res_array@;
            &&& res.status is Ok
            &&& replies.len() == ops.len()
            &&& forall|i: int|
                0 <= i < ops.len() ==> (#[trigger] replies[i]).operation() == ops[i].operation()
                    && replies[i].failure() is None
        }),
{
    lemma_compound_succeeds_iff(call.pending.expected(), reply);
    let expected = operations_of(ops);
    assert(forall|i: int|
        0 <= i < ops.len() ==> (#[trigger] expected[i]) == ops[i].operation());
    if let Ok(res) = reply {
        let replies = res.res_array@;
        if replies.len() == ops.len() && forall|i: int|
            0 <= i < ops.len() ==> (#[trigger] replies[i]).operation() == ops[i].operation()
                && replies[i].failure() is None {
            assert(answers_all(expected, replies));
        }
    }
}

/// `client` after `n` more requests.
pub open spec fn after_calls(client: ClientView, n: nat) -> ClientView
    decreases n,
{
    if n == 0 {
        client
    } else {
        after_calls(client, (n - 1) as nat).after_call()
    }
}

/// Requests of a session are numbered one after the other, from the number of the first one on,
/// and making them changes nothing else of the client.
pub proof fn lemma_requests_are_numbered(client: ClientView, n: nat)
    requires
        client.sequence_id.0 + n <= u32::MAX,
    ensures
        after_calls(client, n) == (ClientView {
            sequence_id: SequenceId((client.sequence_id.0 + n) as u32),
            ..client
        }),
        after_calls(client, n).sequence_op() matches ArgOp::Sequence(args) && args.sequence_id.0
            == client.sequence_id.0 + n && args.session_id == client.session.session_id,
    decreases n,
{
    if n > 0 {
        lemma_requests_are_numbered(client, (n - 1) as nat);
    }
}

/// A client that has gone through the handshake knows its session, its names and what the root
/// of the server tells, and makes its next request under number two.
pub proof fn lemma_ready_client(
    session: CreateSessionRes,
    client_id: ClientId,
    client_owner: ClientOwner,
    attrs: FileAttributes,
)
    ensures
        ({
            let fresh = ClientView::new(session, client_id, client_owner);
            let ready = fresh.after_call().learnt(attrs);
            &&& ready.session == session
            &&& ready.client_id == client_id
            &&& ready.client_owner == client_owner
            &&& ready.sequence_id == SequenceId(2)
            &&& ready.can_call()
            &&& ready.max_read == attr_sizes(attrs)[MAX_READ]
            &&& ready.max_write == attr_sizes(attrs)[MAX_WRITE]
            &&& ready.supported_attrs == attr_id_sets(attrs)[SUPPORTED_ATTRS]
        }),
{
}

/// What is asked for of all attributes that a server supports is supported, and is neither of
/// the two that can only be set.
pub proof fn lemma_only_readable_asked(supported: Set<u32>)
    ensures
        ({
            let asked = supported.remove(TIME_ACCESS_SET).remove(TIME_MODIFY_SET);
            &&& asked.subset_of(supported)
            &&& !asked.contains(TIME_ACCESS_SET)
            &&& !asked.contains(TIME_MODIFY_SET)
            &&& forall|id: u32|
                supported.contains(id) && id != TIME_ACCESS_SET && id != TIME_MODIFY_SET
                    ==> asked.contains(id)
        }),
{
}

/// Permissions that are asked about are known ones, and known ones are all asked about.
pub proof fn lemma_only_known_access_asked(access: u32)
    ensures
        (access & ACCESS_ALL) & !ACCESS_ALL == 0,
        access & !ACCESS_ALL == 0 ==> access & ACCESS_ALL == access,
{
    assert((access & 0x3f) & !0x3fu32 == 0) by (bit_vector);
    assert(access & !0x3fu32 == 0 ==> access & 0x3f == access) by (bit_vector);
}

/// What is left to do of reading a file once `parts` have come.
pub open spec fn read_after(work: ReadAllView, parts: Seq<ReadRes>) -> ReadAllView
    decreases parts.len(),
{
    if parts.len() == 0 {
        work
    } else {
        read_after(work, parts.drop_last()).next(parts.last().data@)
    }
}

/// The data in `parts`, in order.
pub open spec fn data_of(parts: Seq<ReadRes>) -> Seq<u8>
    decreases parts.len(),
{
    if parts.len() == 0 {
        Seq::empty()
    } else {
        data_of(parts.drop_last()) + parts.last().data@
    }
}

/// Whether `part` is what a file that holds `file` has at `offset`, and tells truly whether the
/// file ends behind it.
pub open spec fn is_part_of(part: ReadRes, file: Seq<u8>, offset: int) -> bool {
    let end = offset + part.data@.len();
    &&& 0 <= offset
    &&& end <= file.len()
    &&& part.data@ == file.subrange(offset, end)
    &&& part.eof == (end == file.len())
}

/// While a file is read from its start, each request asks for what follows the data handed on
/// so far.
pub proof fn lemma_read_all_goes_on(handle: Seq<u8>, parts: Seq<ReadRes>)
    ensures
        read_after(ReadAllView { handle, offset: 0 }, parts) == (ReadAllView {
            handle,
            offset: data_of(parts).len() as int,
        }),
    decreases parts.len(),
{
    if parts.len() > 0 {
        lemma_read_all_goes_on(handle, parts.drop_last());
    }
}

/// Reading a whole file hands on the contents of the file, no matter into which parts the
/// server splits it.
pub proof fn lemma_read_all_gives_file(handle: Seq<u8>, file: Seq<u8>, parts: Seq<ReadRes>)
    requires
        parts.len() > 0,
        forall|i: int|
            0 <= i < parts.len() ==> is_part_of(
                #[trigger] parts[i],
                file,
                read_after(ReadAllView { handle, offset: 0 }, parts.take(i)).offset,
            ),
        parts.last().eof,
    ensures
        data_of(parts) == file,
{
    assert forall|i: int| 0 <= i < parts.len() implies #[trigger] data_is_true(
        handle,
        file,
        parts,
        i,
    ) by {
        assert(is_part_of(
            parts[i],
            file,
            read_after(ReadAllView { handle, offset: 0 }, parts.take(i)).offset,
        ));
    }
    lemma_read_all_prefix(handle, file, parts, parts.len() as int);
    lemma_read_all_goes_on(handle, parts.drop_last());
    assert(parts.take(parts.len() as int) =~= parts);
    assert(parts.take(parts.len() - 1) =~= parts.drop_last());
    assert(is_part_of(
        parts[parts.len() - 1],
        file,
        read_after(ReadAllView { handle, offset: 0 }, parts.take(parts.len() - 1)).offset,
    ));
    assert(data_of(parts) =~= file);
}

/// Whether part `i` of a file holds what was asked for.
spec fn data_is_true(handle: Seq<u8>, file: Seq<u8>, parts: Seq<ReadRes>, i: int) -> bool {
    is_part_of(
        parts[i],
        file,
        read_after(ReadAllView { handle, offset: 0 }, parts.take(i)).offset,
    )
}

proof fn lemma_read_all_prefix(handle: Seq<u8>, file: Seq<u8>, parts: Seq<ReadRes>, n: int)
    requires
        0 <= n <= parts.len(),
        forall|i: int| 0 <= i < parts.len() ==> #[trigger] data_is_true(handle, file, parts, i),
    ensures
        data_of(parts.take(n)).len() <= file.len(),
        data_of(parts.take(n)) == file.take(data_of(parts.take(n)).len() as int),
    decreases n,
{
    if n > 0 {
        lemma_read_all_prefix(handle, file, parts, n - 1);
        lemma_read_all_goes_on(handle, parts.take(n - 1));
        assert(data_is_true(handle, file, parts, n - 1));
        assert(parts.take(n).drop_last() =~= parts.take(n - 1));
        assert(parts.take(n).last() == parts[n - 1]);
    }
    assert(data_of(parts.take(n)) =~= file.take(data_of(parts.take(n)).len() as int));
}

/// The contents of a file that held `file`, once `data` has been written at `offset`.
pub open spec fn overwritten(file: Seq<u8>, offset: int, data: Seq<u8>) -> Seq<u8> {
    let end = offset + data.len();
    Seq::new(
        if data.len() > 0 && end > file.len() {
            end as nat
        } else {
            file.len()
        },
        |i: int|
            if offset <= i < end {
                data[i - offset]
            } else if i < file.len() {
                file[i]
            } else {
                0u8
            },
    )
}

/// What a buffer holds behind the bytes that the source has put into it does not matter.
pub proof fn lemma_only_given_bytes_count(work: WriteAllView, buf: Seq<u8>, amount: nat)
    requires
        amount <= buf.len(),
    ensures
        work.filled(buf, amount) == work.filled(buf.take(amount as int), amount),
        work.filled(buf, amount).buf == buf.take(amount as int),
{
    assert(resized(buf, amount) =~= buf.take(amount as int));
    assert(resized(buf.take(amount as int), amount) =~= buf.take(amount as int));
}

/// What happens while a file is written.
pub enum WriteEvent {
    /// The source gives data.
    Given(Seq<u8>),
    /// The server says that it has written so many bytes.
    Written(int),
}

/// What is left to do of writing a file after `events`.
pub open spec fn write_after(work: WriteAllView, events: Seq<WriteEvent>) -> WriteAllView
    decreases events.len(),
{
    if events.len() == 0 {
        work
    } else {
        let before = write_after(work, events.drop_last());
        match events.last() {
            WriteEvent::Given(data) => before.filled(data, data.len()),
            WriteEvent::Written(count) => before.written(count),
        }
    }
}

/// The contents of a file that held `file` after `events`, the server having written as many
/// bytes as it says of each request, where the request says.
pub open spec fn file_after(file: Seq<u8>, work: WriteAllView, events: Seq<WriteEvent>) -> Seq<u8>
    decreases events.len(),
{
    if events.len() == 0 {
        file
    } else {
        let before = file_after(file, work, events.drop_last());
        let sent = write_after(work, events.drop_last());
        match events.last() {
            WriteEvent::Given(_) => before,
            WriteEvent::Written(count) => overwritten(before, sent.offset, sent.buf.take(count)),
        }
    }
}

/// All that the source gives in `events`.
pub open spec fn given_in(events: Seq<WriteEvent>) -> Seq<u8>
    decreases events.len(),
{
    if events.len() == 0 {
        Seq::empty()
    } else {
        match events.last() {
            WriteEvent::Given(data) => given_in(events.drop_last()) + data,
            WriteEvent::Written(_) => given_in(events.drop_last()),
        }
    }
}

/// Whether `event` can happen with `work` left to do, and is not that the server writes a part
/// of what it was sent: it writes all of it or nothing.
pub open spec fn all_or_nothing(work: WriteAllView, event: WriteEvent) -> bool {
    match event {
        WriteEvent::Given(data) => work.buf.len() == 0 && data.len() > 0,
        WriteEvent::Written(count) => work.buf.len() > 0 && (count == 0 || count
            == work.buf.len()),
    }
}

/// Writing a whole file stores what the source gives from the start of the file on, no matter
/// how the source splits it, provided that the server writes all of what a request holds or
/// nothing. What has been given but not stored is what the next request holds.
pub proof fn lemma_write_all_stores_source(
    handle: Seq<u8>,
    file: Seq<u8>,
    events: Seq<WriteEvent>,
)
    requires
        forall|i: int|
            0 <= i < events.len() ==> all_or_nothing(
                write_after(WriteAllView::start(handle), events.take(i)),
                #[trigger] events[i],
            ),
    ensures
        ({
            let work = write_after(WriteAllView::start(handle), events);
            &&& work.handle == handle
            &&& 0 <= work.offset
            &&& work.offset + work.buf.len() == given_in(events).len()
            &&& work.buf == given_in(events).skip(work.offset)
            &&& work.buf.len() > 0 ==> work.amount_read == work.buf.len()
            &&& file_after(file, WriteAllView::start(handle), events) == overwritten(
                file,
                0,
                given_in(events).take(work.offset),
            )
        }),
    decreases events.len(),
{
    let start = WriteAllView::start(handle);
    let work = write_after(start, events);
    let given = given_in(events);
    if events.len() > 0 {
        let earlier = events.drop_last();
        let before = write_after(start, earlier);
        let given_before = given_in(earlier);
        assert forall|i: int| 0 <= i < earlier.len() implies all_or_nothing(
            write_after(start, earlier.take(i)),
            #[trigger] earlier[i],
        ) by {
            assert(earlier.take(i) =~= events.take(i));
            assert(earlier[i] == events[i]);
        }
        lemma_write_all_stores_source(handle, file, earlier);
        assert(events.take(events.len() - 1) =~= earlier);
        assert(all_or_nothing(before, events[events.len() - 1]));
        match events.last() {
            WriteEvent::Given(data) => {
                assert(resized(data, data.len()) =~= data);
                assert(given.take(work.offset) =~= given_before.take(work.offset));
            },
            WriteEvent::Written(count) => {
                if count == 0 {
                    assert(before.buf.skip(0) =~= before.buf);
                    assert(overwritten(
                        file_after(file, start, earlier),
                        before.offset,
                        before.buf.take(0),
                    ) =~= file_after(file, start, earlier));
                } else {
                    assert(before.buf.take(count) =~= before.buf);
                    assert(overwritten(
                        overwritten(file, 0, given.take(before.offset)),
                        before.offset,
                        before.buf,
                    ) =~= overwritten(file, 0, given.take(work.offset)));
                }
            },
        }
    }
    assert(work.buf =~= given.skip(work.offset));
    assert(file_after(file, start, events) =~= overwritten(file, 0, given.take(work.offset)));
}

/// What was written to a file that was not longer is what is read from it: the data that the
/// source gave.
pub proof fn lemma_read_all_gives_back_write_all(
    handle: Seq<u8>,
    file: Seq<u8>,
    events: Seq<WriteEvent>,
    parts: Seq<ReadRes>,
)
    requires
        forall|i: int|
            0 <= i < events.len() ==> all_or_nothing(
                write_after(WriteAllView::start(handle), events.take(i)),
                #[trigger] events[i],
            ),
        write_after(WriteAllView::start(handle), events).buf.len() == 0,
        file.len() <= given_in(events).len(),
        parts.len() > 0,
        forall|i: int|
            0 <= i < parts.len() ==> is_part_of(
                #[trigger] parts[i],
                file_after(file, WriteAllView::start(handle), events),
                read_after(ReadAllView { handle, offset: 0 }, parts.take(i)).offset,
            ),
        parts.last().eof,
    ensures
        data_of(parts) == given_in(events),
{
    let stored = file_after(file, WriteAllView::start(handle), events);
    let given = given_in(events);
    lemma_write_all_stores_source(handle, file, events);
    assert(given.take(given.len() as int) =~= given);
    assert(stored =~= given);
    lemma_read_all_gives_file(handle, stored, parts);
}

/// What is left to do of listing a directory once `lists` have come.
pub open spec fn listed_after(work: ReadDirView, lists: Seq<DirectoryList>) -> ReadDirView
    decreases lists.len(),
{
    if lists.len() == 0 {
        work
    } else {
        listed_after(work, lists.drop_last()).next(lists.last().entries@)
    }
}

/// The entries in `lists`, in order.
pub open spec fn entries_of(lists: Seq<DirectoryList>) -> Seq<DirectoryEntry>
    decreases lists.len(),
{
    if lists.len() == 0 {
        Seq::empty()
    } else {
        entries_of(lists.drop_last()) + lists.last().entries@
    }
}

/// A listing holds the entries of all replies in order, and each request but the first asks for
/// what follows the last entry that has come, with the same attributes.
pub proof fn lemma_listing_goes_on(
    handle: Seq<u8>,
    attr_request: Set<u32>,
    lists: Seq<DirectoryList>,
)
    ensures
        ({
            let work = listed_after(ReadDirView::start(handle, attr_request), lists);
            &&& work.handle == handle
            &&& work.attr_request == attr_request
            &&& work.entries == entries_of(lists)
            &&& work.cookie == if lists.len() == 0 {
                Cookie(0)
            } else {
                entries_of(lists).last().cookie
            }
        }),
    decreases lists.len(),
{
    if lists.len() > 0 {
        lemma_listing_goes_on(handle, attr_request, lists.drop_last());
    }
}

/// Whether the entries of `dir` that follow the one with `cookie` start at `start`. The cookie
/// zero comes before all entries.
pub open spec fn continues_at(dir: Seq<DirectoryEntry>, cookie: Cookie, start: int) -> bool {
    if cookie == Cookie(0) {
        start == 0
    } else {
        0 < start <= dir.len() && dir[start - 1].cookie == cookie
    }
}

/// Whether `list` holds entries of `dir` that follow the one with `cookie`, and tells truly
/// whether there are no more.
pub open spec fn is_part_of_dir(
    list: DirectoryList,
    dir: Seq<DirectoryEntry>,
    cookie: Cookie,
) -> bool {
    exists|start: int|
        {
            let end = start + list.entries@.len();
            &&& #[trigger] continues_at(dir, cookie, start)
            &&& end <= dir.len()
            &&& list.entries@ == dir.subrange(start, end)
            &&& list.eof == (end == dir.len())
        }
}

/// Whether each cookie stands for one place in `dir`.
pub open spec fn has_distinct_cookies(dir: Seq<DirectoryEntry>) -> bool {
    &&& forall|i: int| 0 <= i < dir.len() ==> (#[trigger] dir[i]).cookie != Cookie(0)
    &&& forall|i: int, j: int|
        0 <= i < j < dir.len() ==> (#[trigger] dir[i]).cookie != (#[trigger] dir[j]).cookie
}

/// Listing a directory gives all entries of the directory, each once and in order, no matter
/// into which parts the server splits them.
pub proof fn lemma_listing_gives_directory(
    handle: Seq<u8>,
    attr_request: Set<u32>,
    dir: Seq<DirectoryEntry>,
    lists: Seq<DirectoryList>,
)
    requires
        has_distinct_cookies(dir),
        lists.len() > 0,
        lists.len() > 1 ==> lists[0].entries@.len() > 0,
        forall|i: int|
            0 <= i < lists.len() ==> is_part_of_dir(
                #[trigger] lists[i],
                dir,
                listed_after(ReadDirView::start(handle, attr_request), lists.take(i)).cookie,
            ),
        lists.last().eof,
    ensures
        entries_of(lists) == dir,
{
    let n = lists.len() as int;
    assert forall|i: int| 0 <= i < lists.len() implies #[trigger] part_is_true(
        handle,
        attr_request,
        dir,
        lists,
        i,
    ) by {
        assert(is_part_of_dir(
            lists[i],
            dir,
            listed_after(ReadDirView::start(handle, attr_request), lists.take(i)).cookie,
        ));
    }
    lemma_listing_prefix(handle, attr_request, dir, lists, n);
    assert(lists.take(n) =~= lists);
    assert(entries_of(lists) =~= dir);
}

/// Whether part `i` of a listing holds what was asked for.
spec fn part_is_true(
    handle: Seq<u8>,
    attr_request: Set<u32>,
    dir: Seq<DirectoryEntry>,
    lists: Seq<DirectoryList>,
    i: int,
) -> bool {
    is_part_of_dir(
        lists[i],
        dir,
        listed_after(ReadDirView::start(handle, attr_request), lists.take(i)).cookie,
    )
}

proof fn lemma_listing_prefix(
    handle: Seq<u8>,
    attr_request: Set<u32>,
    dir: Seq<DirectoryEntry>,
    lists: Seq<DirectoryList>,
    n: int,
)
    requires
        has_distinct_cookies(dir),
        0 <= n <= lists.len(),
        lists.len() > 1 ==> lists[0].entries@.len() > 0,
        forall|i: int|
            0 <= i < lists.len() ==> #[trigger] part_is_true(handle, attr_request, dir, lists, i),
    ensures
        ({
            let entries = entries_of(lists.take(n));
            &&& entries.len() <= dir.len()
            &&& entries == dir.take(entries.len() as int)
            &&& n > 0 && lists.len() > 1 ==> entries.len() > 0
            &&& n > 0 ==> lists[n - 1].eof == (entries.len() == dir.len())
        }),
    decreases n,
{
    let entries = entries_of(lists.take(n));
    if n > 0 {
        lemma_listing_prefix(handle, attr_request, dir, lists, n - 1);
        let earlier = lists.take(n - 1);
        let before = entries_of(earlier);
        let list = lists[n - 1];
        let cookie = listed_after(ReadDirView::start(handle, attr_request), earlier).cookie;
        lemma_listing_goes_on(handle, attr_request, earlier);
        assert(lists.take(n).drop_last() =~= earlier);
        assert(lists.take(n).last() == list);
        assert(part_is_true(handle, attr_request, dir, lists, n - 1));
        if n > 1 {
            assert(before.last() == dir[before.len() - 1]);
        } else {
            assert(earlier =~= Seq::<DirectoryList>::empty());
        }
        lemma_part_follows(dir, cookie, list, before.len() as int);
        assert(entries =~= dir.take(entries.len() as int));
    } else {
        assert(lists.take(n) =~= Seq::<DirectoryList>::empty());
        assert(entries =~= dir.take(0));
    }
}

/// A part of a listing that was asked for behind the first `k` entries starts there.
proof fn lemma_part_follows(
    dir: Seq<DirectoryEntry>,
    cookie: Cookie,
    list: DirectoryList,
    k: int,
)
    requires
        has_distinct_cookies(dir),
        0 <= k <= dir.len(),
        cookie == if k == 0 {
            Cookie(0)
        } else {
            dir[k - 1].cookie
        },
        is_part_of_dir(list, dir, cookie),
    ensures
        k + list.entries@.len() <= dir.len(),
        list.entries@ == dir.subrange(k, k + list.entries@.len()),
        list.eof == (k + list.entries@.len() == dir.len()),
{
    let start = choose|start: int|
        {
            let end = start + list.entries@.len();
            &&& #[trigger] continues_at(dir, cookie, start)
            &&& end <= dir.len()
            &&& list.entries@ == dir.subrange(start, end)
            &&& list.eof == (end == dir.len())
        };
    if k > 0 {
        assert(dir[k - 1].cookie != Cookie(0));
        assert(dir[start - 1].cookie == dir[k - 1].cookie);
    }
    assert(start == k);
}

} // verus!
