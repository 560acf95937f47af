//! Work that takes several requests: reading and writing whole files, listing directories.
//!
//! Each kind of work goes through states. A step takes one state and gives the next one, or the
//! error with which the work ends: nothing is left then with which it could go on.
use crate::attrs::{attr_ids, clone_attr_set};
use crate::call::{compound_failure, Call, CompoundReply, Pending};
use crate::client::{is_anonymous, lemma_last_reply, Client, ClientView, OnFile};
use crate::compound::CompoundRequest;
use crate::error::{Error, Result};
use crate::ops::{ArgOp, CompoundArgs, ResOp};
use crate::protocol::{
    clone_bytes, AttrSet, Cookie, DirectoryEntry, DirectoryList, FileHandle, ReadArgs,
    ReadDirArgs, ReadRes, StableHow, Verifier, WriteArgs,
};
use std::io::Error as IoError;
use vstd::prelude::*;

verus! {

impl ClientView {
    /// Whether `call` runs `op` on the file with handle `handle`.
    pub open spec fn runs_on<R: CompoundRequest>(
        self,
        call: Call<R>,
        handle: Seq<u8>,
        op: ArgOp,
    ) -> bool {
        call.args.arg_array@[1] matches ArgOp::PutFh(put) && {
            &&& put.object@ == handle
            &&& call.asks(self.file_ops(put.object, op))
        }
    }
}

impl Client {
    /// Starts to read a whole file.
    pub fn read_all(&self, handle: FileHandle) -> (work: ReadAll)
        ensures
            work@ == (ReadAllView { handle: handle@, offset: 0 }),
            work@.handle == handle.0@,
    {
        ReadAll { handle, offset: 0 }
    }

    /// Starts to write a whole file.
    pub fn write_all(&self, handle: FileHandle) -> (work: WriteAll)
        ensures
            work@ == WriteAllView::start(handle@),
            work@.handle == handle.0@,
            work@.offset == 0,
            work@.buf.len() == 0,
    {
        WriteAll { handle, offset: 0 }
    }

    /// Starts to list a directory. Of the attributes `attr_request`, only those that the server
    /// supports are asked for.
    pub fn read_dir(&self, handle: FileHandle, attr_request: AttrSet) -> (work: ReadDir)
        ensures
            work@ == ReadDirView::start(
                handle@,
                attr_ids(attr_request).intersect(self@.supported_attrs),
            ),
            work@.handle == handle.0@,
            work@.attr_request == attr_ids(attr_request).intersect(self@.supported_attrs),
            work@.cookie == Cookie(0),
            work@.entries.len() == 0,
    {
        let work = ReadDir {
            handle,
            attr_request: self.keep_supported(attr_request),
            cookie: Cookie(0),
            entries: Vec::new(),
        };
        assert(work@.entries =~= Seq::empty());
        work
    }
}

/// A whole file that is being read.
pub struct ReadAll {
    handle: FileHandle,
    offset: u64,
}

/// What is left to do of reading a file: everything from `offset` on.
pub struct ReadAllView {
    pub handle: Seq<u8>,
    pub offset: int,
}

impl View for ReadAll {
    type V = ReadAllView;

    closed spec fn view(&self) -> ReadAllView {
        ReadAllView { handle: self.handle@, offset: self.offset as int }
    }
}

impl ReadAllView {
    /// What is left to do once `data` has come.
    pub open spec fn next(self, data: Seq<u8>) -> Self {
        ReadAllView { offset: self.offset + data.len(), ..self }
    }
}

/// A file that is being read, with a request on its way.
pub struct ReadAllSent {
    work: ReadAll,
    pending: Pending<OnFile<ReadArgs>>,
}

/// A file that is being read, with a part of it that has come.
pub struct ReadAllPart {
    work: ReadAll,
    res: ReadRes,
}

/// Data of a file that is being read, on its way to the sink.
pub struct Delivery {
    work: ReadAll,
    data: Vec<u8>,
    last: bool,
}

impl ReadAll {
    /// Makes the next request: as much as one reply can hold, from where the last one ended.
    pub fn request(self, client: &mut Client) -> (asked: (ReadAllSent, CompoundArgs))
        requires
            old(client)@.can_call(),
            old(client)@.max_read <= u32::MAX,
        ensures
            ({
                let call = Call { args: asked.1, pending: asked.0.pending() };
                let op = call.args.arg_array@[2];
                &&& old(client)@.runs_on(call, self@.handle, op)
                &&& op matches ArgOp::Read(args) && is_anonymous(args.state_id) && args.offset
                    == self@.offset && args.count == old(client)@.max_read
            }),
            asked.1.tag@ == "Test Client"@,
            asked.1.minor_version == 1,
            asked.1.arg_array@.len() == 3,
            asked.1.arg_array@[0] matches ArgOp::Sequence(args) && args.sequence_id == old(
                client,
            )@.sequence_id && args.session_id == old(client)@.session.session_id,
            asked.1.arg_array@[1] matches ArgOp::PutFh(args) && args.object.0@ == self@.handle,
            asked.0.work() == self@,
            final(client)@ == old(client)@.after_call(),
    {
        let count: u32 = client.get_max_read_size() as u32;
        let call = client.read(self.handle.clone(), self.offset, count);
        (ReadAllSent { work: self, pending: call.pending }, call.args)
    }
}

impl ReadAllSent {
    /// What is left to do.
    pub closed spec fn work(self) -> ReadAllView {
        self.work@
    }

    /// The request whose reply is waited for.
    pub closed spec fn pending(self) -> Pending<OnFile<ReadArgs>> {
        self.pending
    }

    /// Reads the reply. An error ends the work.
    pub fn receive(self, reply: CompoundReply) -> (part: Result<ReadAllPart>)
        ensures
            match part {
                Ok(part) => {
                    &&& compound_failure(self.pending().expected(), reply) is None
                    &&& reply matches Ok(res) && res.res_array@.last() == ResOp::Read(
                        Ok(part.res()),
                    )
                    &&& part.work() == self.work()
                },
                Err(e) => compound_failure(self.pending().expected(), reply) == Some(e@),
            },
    {
        let ghost pending = self.pending;
        match self.pending.finish(reply) {
            Ok(res) => {
                proof {
                    lemma_last_reply(pending, reply, res);
                }
                Ok(ReadAllPart { work: self.work, res })
            },
            Err(e) => Err(e),
        }
    }
}

impl ReadAllPart {
    /// What is left to do, this part not counted.
    pub closed spec fn work(self) -> ReadAllView {
        self.work@
    }

    /// What has come.
    pub closed spec fn res(self) -> ReadRes {
        self.res
    }

    /// Whether the file up to the end of this part is not too long to tell where it goes on.
    pub open spec fn fits(self) -> bool {
        self.work().offset + self.res().data@.len() <= u64::MAX
    }

    /// Tells whether the file up to the end of this part is not too long to tell where it goes
    /// on.
    pub fn is_fitting(&self) -> (fitting: bool)
        ensures
            fitting == self.fits(),
    {
        self.res.data.len() as u64 <= u64::MAX - self.work.offset
    }

    /// Hands the data on.
    pub fn hand_on(self) -> (delivery: Delivery)
        requires
            self.fits(),
        ensures
            delivery.data() == self.res().data,
            delivery.last() == self.res().eof,
            delivery.work() == self.work().next(self.res().data@),
    {
        let work = ReadAll {
            handle: self.work.handle,
            offset: self.work.offset + self.res.data.len() as u64,
        };
        Delivery { work, data: self.res.data, last: self.res.eof }
    }
}

impl Delivery {
    /// What is left to do once the data has been delivered.
    pub closed spec fn work(self) -> ReadAllView {
        self.work@
    }

    /// The data.
    pub closed spec fn data(self) -> Vec<u8> {
        self.data
    }

    /// Whether the file ends behind the data.
    pub closed spec fn last(self) -> bool {
        self.last
    }

    /// The data for the sink.
    pub fn bytes(&self) -> (bytes: &Vec<u8>)
        ensures
            *bytes == self.data(),
    {
        &self.data
    }

    /// Takes in whether the sink took the data. An error ends the work, also at the end of the
    /// file; otherwise the work is done at the end of the file and goes on before it.
    pub fn delivered(self, outcome: std::result::Result<(), IoError>) -> (next: Result<
        Option<ReadAll>,
    >)
        ensures
            match outcome {
                Ok(_) => match next {
                    Ok(Some(work)) => !self.last() && work@ == self.work(),
                    Ok(None) => self.last(),
                    Err(_) => false,
                },
                Err(e) => next == Err::<Option<ReadAll>, Error>(Error::Io(e)),
            },
    {
        match outcome {
            Ok(_) => if self.last {
                Ok(None)
            } else {
                Ok(Some(self.work))
            },
            Err(e) => Err(Error::from(e)),
        }
    }
}

/// A whole file that is being written; all that has come from the source has been written.
pub struct WriteAll {
    handle: FileHandle,
    offset: u64,
}

/// A whole file that is being written, with data from the source that has not been written.
pub struct WriteChunk {
    handle: FileHandle,
    offset: u64,
    amount_read: usize,
    buf: Vec<u8>,
}

/// What is left to do of writing a file: `buf` has come from the source and goes to `offset`.
/// With `buf`, `amount_read` bytes came.
pub struct WriteAllView {
    pub handle: Seq<u8>,
    pub offset: int,
    pub amount_read: int,
    pub buf: Seq<u8>,
}

impl View for WriteAll {
    type V = WriteAllView;

    closed spec fn view(&self) -> WriteAllView {
        WriteAllView {
            handle: self.handle@,
            offset: self.offset as int,
            amount_read: 0,
            buf: Seq::empty(),
        }
    }
}

impl View for WriteChunk {
    type V = WriteAllView;

    closed spec fn view(&self) -> WriteAllView {
        WriteAllView {
            handle: self.handle@,
            offset: self.offset as int,
            amount_read: self.amount_read as int,
            buf: self.buf@,
        }
    }
}

/// The first `len` bytes of `bytes`, with zeros behind them where there are not as many.
pub open spec fn resized(bytes: Seq<u8>, len: nat) -> Seq<u8> {
    Seq::new(
        len,
        |i: int|
            if i < bytes.len() {
                bytes[i]
            } else {
                0u8
            },
    )
}

impl WriteAllView {
    /// All that is left to do before anything has come from the source.
    pub open spec fn start(handle: Seq<u8>) -> Self {
        WriteAllView { handle, offset: 0, amount_read: 0, buf: Seq::empty() }
    }

    /// What is left to do once the source has put `amount` bytes into `buf`.
    pub open spec fn filled(self, buf: Seq<u8>, amount: nat) -> Self {
        WriteAllView { amount_read: amount as int, buf: resized(buf, amount), ..self }
    }

    /// What is left to do once the server has written `count` bytes. The offset moves when all
    /// that came from the source has been written.
    pub open spec fn written(self, count: int) -> Self {
        if count == self.buf.len() {
            WriteAllView {
                offset: self.offset + self.amount_read,
                amount_read: 0,
                buf: Seq::empty(),
                ..self
            }
        } else {
            WriteAllView { buf: self.buf.skip(count), ..self }
        }
    }
}

/// A file that is being written, with a request on its way.
pub struct WriteAllSent {
    chunk: WriteChunk,
    pending: Pending<OnFile<WriteArgs>>,
}

/// A file that is being written, with what the server says of the last request.
pub struct WriteAnswer {
    chunk: WriteChunk,
    count: u32,
}

/// How far writing a file has got.
pub enum WriteStep {
    /// There is data left to write.
    More(WriteChunk),
    /// All that has come from the source has been written.
    Next(WriteAll),
}

impl WriteAll {
    /// A buffer for the source, with room for as much as one request can carry.
    pub fn buffer(&self, client: &Client) -> (buf: Vec<u8>)
        requires
            client@.max_write as usize <= isize::MAX,
        ensures
            buf@ == Seq::new((client@.max_write as usize) as nat, |i: int| 0u8),
    {
        let size: usize = client.get_max_write_size() as usize;
        let buf = vec![0u8; size];
        assert(buf@ =~= Seq::new(size as nat, |i: int| 0u8));
        buf
    }

    /// Takes in a buffer and how many bytes the source has put into it, if it did not fail. An
    /// error ends the work; if there are no more bytes, the work is done.
    pub fn fill(self, buf: Vec<u8>, outcome: std::result::Result<usize, IoError>) -> (next: Result<
        Option<WriteChunk>,
    >)
        ensures
            match outcome {
                Ok(amount) => match next {
                    Ok(Some(chunk)) => {
                        &&& amount > 0
                        &&& chunk@ == self@.filled(buf@, amount as nat)
                    },
                    Ok(None) => amount == 0,
                    Err(_) => false,
                },
                Err(e) => next == Err::<Option<WriteChunk>, Error>(Error::Io(e)),
            },
    {
        let amount_read: usize = match outcome {
            Ok(amount_read) => amount_read,
            Err(e) => {
                return Err(Error::from(e));
            },
        };
        if amount_read == 0 {
            return Ok(None);
        }
        let mut buf = buf;
        let ghost given = buf@;
        buf.resize(amount_read, 0);
        proof {
            if amount_read > given.len() {
                assert forall|i: int| 0 <= i < amount_read implies buf@[i] == resized(
                    given,
                    amount_read as nat,
                )[i] by {
                    if i < given.len() {
                        assert(buf@[i] == buf@.subrange(0, given.len() as int)[i]);
                    }
                }
            }
            assert(buf@ =~= resized(given, amount_read as nat));
        }
        Ok(Some(WriteChunk { handle: self.handle, offset: self.offset, amount_read, buf }))
    }
}

impl WriteChunk {
    /// There is data left, no more than came from the source at once.
    #[verifier::type_invariant]
    closed spec fn inv(self) -> bool {
        0 < self.buf@.len() <= self.amount_read
    }

    /// Makes the next request: all data that is left, to where it belongs.
    pub fn request(self, client: &mut Client) -> (asked: (WriteAllSent, CompoundArgs))
        requires
            old(client)@.can_call(),
        ensures
            ({
                let call = Call { args: asked.1, pending: asked.0.pending() };
                let op = call.args.arg_array@[2];
                &&& old(client)@.runs_on(call, self@.handle, op)
                &&& op matches ArgOp::Write(args) && is_anonymous(args.state_id) && args.offset
                    == self@.offset && args.stable == StableHow::FileSync && args.data@
                    == self@.buf
            }),
            self@.buf.len() > 0,
            asked.1.tag@ == "Test Client"@,
            asked.1.minor_version == 1,
            asked.1.arg_array@.len() == 3,
            asked.1.arg_array@[0] matches ArgOp::Sequence(args) && args.sequence_id == old(
                client,
            )@.sequence_id && args.session_id == old(client)@.session.session_id,
            asked.1.arg_array@[1] matches ArgOp::PutFh(args) && args.object.0@ == self@.handle,
            asked.0.work() == self@,
            final(client)@ == old(client)@.after_call(),
    {
        proof {
            use_type_invariant(&self);
        }
        let call = client.write(self.handle.clone(), self.offset, clone_bytes(&self.buf));
        (WriteAllSent { chunk: self, pending: call.pending }, call.args)
    }
}

impl WriteAllSent {
    /// What is left to do.
    pub closed spec fn work(self) -> WriteAllView {
        self.chunk@
    }

    /// The request whose reply is waited for.
    pub closed spec fn pending(self) -> Pending<OnFile<WriteArgs>> {
        self.pending
    }

    /// Reads the reply. An error ends the work.
    pub fn receive(self, reply: CompoundReply) -> (answer: Result<WriteAnswer>)
        ensures
            match answer {
                Ok(answer) => {
                    &&& compound_failure(self.pending().expected(), reply) is None
                    &&& reply matches Ok(res) && res.res_array@.last() matches ResOp::Write(
                        Ok(got),
                    ) && got.count == answer.count()
                    &&& answer.work() == self.work()
                },
                Err(e) => compound_failure(self.pending().expected(), reply) == Some(e@),
            },
    {
        let ghost pending = self.pending;
        match self.pending.finish(reply) {
            Ok(res) => {
                proof {
                    lemma_last_reply(pending, reply, res);
                }
                Ok(WriteAnswer { chunk: self.chunk, count: res.count })
            },
            Err(e) => Err(e),
        }
    }
}

impl WriteAnswer {
    /// What is left to do, the answer not counted.
    pub closed spec fn work(self) -> WriteAllView {
        self.chunk@
    }

    /// How many bytes the server has written.
    pub closed spec fn count(self) -> u32 {
        self.count
    }

    /// Whether the server has written no more than it was sent, and the file is not too long to
    /// tell where it goes on.
    pub open spec fn fits(self) -> bool {
        &&& self.count() <= self.work().buf.len()
        &&& self.count() == self.work().buf.len() ==> self.work().offset + self.work().amount_read
            <= u64::MAX
    }

    /// Tells whether the server has written no more than it was sent, and the file is not too
    /// long to tell where it goes on.
    pub fn is_fitting(&self) -> (fitting: bool)
        ensures
            fitting == self.fits(),
    {
        let count: usize = self.count as usize;
        let amount_read: u64 = self.chunk.amount_read as u64;
        count < self.chunk.buf.len() || (count == self.chunk.buf.len() && amount_read <= u64::MAX
            - self.chunk.offset)
    }

    /// Takes in how much the server has written.
    pub fn take_in(self) -> (step: WriteStep)
        requires
            self.fits(),
        ensures
            match step {
                WriteStep::More(chunk) => {
                    &&& self.count() < self.work().buf.len()
                    &&& chunk@ == self.work().written(self.count() as int)
                },
                WriteStep::Next(work) => {
                    &&& self.count() == self.work().buf.len()
                    &&& work@ == self.work().written(self.count() as int)
                },
            },
    {
        proof {
            use_type_invariant(&self.chunk);
        }
        let count: usize = self.count as usize;
        let chunk = self.chunk;
        if count == chunk.buf.len() {
            return WriteStep::Next(
                WriteAll {
                    handle: chunk.handle,
                    offset: chunk.offset + chunk.amount_read as u64,
                },
            );
        }
        let mut buf = chunk.buf;
        let rest = buf.split_off(count);
        WriteStep::More(
            WriteChunk {
                handle: chunk.handle,
                offset: chunk.offset,
                amount_read: chunk.amount_read,
                buf: rest,
            },
        )
    }
}

/// A directory that is being listed.
pub struct ReadDir {
    handle: FileHandle,
    attr_request: AttrSet,
    cookie: Cookie,
    entries: Vec<DirectoryEntry>,
}

/// What is left to do of listing a directory: `entries` have come, and what follows starts at
/// `cookie`.
pub struct ReadDirView {
    pub handle: Seq<u8>,
    pub attr_request: Set<u32>,
    pub cookie: Cookie,
    pub entries: Seq<DirectoryEntry>,
}

impl View for ReadDir {
    type V = ReadDirView;

    closed spec fn view(&self) -> ReadDirView {
        ReadDirView {
            handle: self.handle@,
            attr_request: attr_ids(self.attr_request),
            cookie: self.cookie,
            entries: self.entries@,
        }
    }
}

impl ReadDirView {
    /// All that is left to do before anything has come.
    pub open spec fn start(handle: Seq<u8>, attr_request: Set<u32>) -> Self {
        ReadDirView { handle, attr_request, cookie: Cookie(0), entries: Seq::empty() }
    }

    /// What is left to do once more entries have come.
    pub open spec fn next(self, more: Seq<DirectoryEntry>) -> Self {
        let entries = self.entries + more;
        ReadDirView { entries, cookie: entries.last().cookie, ..self }
    }
}

/// A directory that is being listed, with a request on its way.
pub struct ReadDirSent {
    work: ReadDir,
    pending: Pending<OnFile<ReadDirArgs>>,
}

/// A directory that is being listed, with a part of the listing that has come.
pub struct ReadDirPart {
    work: ReadDir,
    list: DirectoryList,
}

/// How far a listing has got.
pub enum Listing {
    /// There is more to list.
    More(ReadDir),
    /// The listing is complete.
    Complete(Vec<DirectoryEntry>),
}

impl ReadDir {
    /// Makes the next request: what follows the entries that have come.
    pub fn request(self, client: &mut Client) -> (asked: (ReadDirSent, CompoundArgs))
        requires
            old(client)@.can_call(),
        ensures
            ({
                let call = Call { args: asked.1, pending: asked.0.pending() };
                let op = call.args.arg_array@[2];
                &&& old(client)@.runs_on(call, self@.handle, op)
                &&& op matches ArgOp::ReadDir(args) && {
                    &&& args.cookie == self@.cookie
                    &&& args.cookie_verifier == Verifier(0)
                    &&& args.directory_count == 1000
                    &&& args.max_count == 1000
                    &&& attr_ids(args.attr_request) == self@.attr_request
                }
            }),
            asked.1.tag@ == "Test Client"@,
            asked.1.minor_version == 1,
            asked.1.arg_array@.len() == 3,
            asked.1.arg_array@[0] matches ArgOp::Sequence(args) && args.sequence_id == old(
                client,
            )@.sequence_id && args.session_id == old(client)@.session.session_id,
            asked.1.arg_array@[1] matches ArgOp::PutFh(args) && args.object.0@ == self@.handle,
            asked.0.work() == self@,
            final(client)@ == old(client)@.after_call(),
    {
        let call = client.on_file(
            self.handle.clone(),
            ReadDirArgs {
                cookie: self.cookie,
                cookie_verifier: Verifier(0),
                directory_count: 1000,
                max_count: 1000,
                attr_request: clone_attr_set(&self.attr_request),
            },
        );
        (ReadDirSent { work: self, pending: call.pending }, call.args)
    }
}

impl ReadDirSent {
    /// What is left to do.
    pub closed spec fn work(self) -> ReadDirView {
        self.work@
    }

    /// The request whose reply is waited for.
    pub closed spec fn pending(self) -> Pending<OnFile<ReadDirArgs>> {
        self.pending
    }

    /// Reads the reply. An error ends the work, and no entry that has come is given.
    pub fn receive(self, reply: CompoundReply) -> (part: Result<ReadDirPart>)
        ensures
            match part {
                Ok(part) => {
                    &&& compound_failure(self.pending().expected(), reply) is None
                    &&& reply matches Ok(res) && res.res_array@.last() matches ResOp::ReadDir(
                        Ok(got),
                    ) && got.reply == part.list()
                    &&& part.work() == self.work()
                },
                Err(e) => compound_failure(self.pending().expected(), reply) == Some(e@),
            },
    {
        let ghost pending = self.pending;
        match self.pending.finish(reply) {
            Ok(res) => {
                proof {
                    lemma_last_reply(pending, reply, res);
                }
                Ok(ReadDirPart { work: self.work, list: res.reply })
            },
            Err(e) => Err(e),
        }
    }
}

impl ReadDirPart {
    /// What is left to do, this part not counted.
    pub closed spec fn work(self) -> ReadDirView {
        self.work@
    }

    /// What has come.
    pub closed spec fn list(self) -> DirectoryList {
        self.list
    }

    /// Whether the listing ends here, or an entry has come that tells where it goes on.
    pub open spec fn ends_or_goes_on(self) -> bool {
        self.list().eof || self.work().entries.len() + self.list().entries@.len() > 0
    }

    /// Tells whether the listing ends here, or an entry has come that tells where it goes on.
    pub fn is_usable(&self) -> (usable: bool)
        ensures
            usable == self.ends_or_goes_on(),
    {
        self.list.eof || self.work.entries.len() > 0 || self.list.entries.len() > 0
    }

    /// Takes in the entries.
    pub fn take_in(self) -> (listing: Listing)
        requires
            self.ends_or_goes_on(),
        ensures
            match listing {
                Listing::More(work) => {
                    &&& !self.list().eof
                    &&& work@ == self.work().next(self.list().entries@)
                },
                Listing::Complete(entries) => {
                    &&& self.list().eof
                    &&& entries@ == self.work().entries + self.list().entries@
                },
            },
    {
        let work = self.work;
        let list = self.list;
        let mut entries = work.entries;
        let mut more = list.entries;
        entries.append(&mut more);
        if list.eof {
            return Listing::Complete(entries);
        }
        let cookie = entries[entries.len() - 1].cookie;
        Listing::More(
            ReadDir { handle: work.handle, attr_request: work.attr_request, cookie, entries },
        )
    }
}

} // verus!
