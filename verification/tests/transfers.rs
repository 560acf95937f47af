//! Work that takes several requests.
use nfs4::FileAttributeId;
use nfs4_client::call::CompoundReply;
use nfs4_client::handshake::Identifying;
use nfs4_client::ops::{ArgOp, CompoundArgs, CompoundRes, ResOp};
use nfs4_client::owner::numbered_client_owner;
use nfs4_client::protocol::{
    AttrSet, ChannelAttrs, ClientId, Cookie, CreateSessionRes, DirectoryEntry, DirectoryList,
    ExchangeIdRes, FileHandle, GetAttrRes, PutFhArgs, ReadArgs, ReadDirArgs, ReadDirRes, ReadRes,
    SequenceId, SessionId, StableHow, StateId, Verifier, WriteArgs, WriteRes,
};
use nfs4_client::transfer::{Listing, ReadAll, ReadDir, WriteChunk, WriteStep};
use nfs4_client::{Client, Error};
use std::io::{Error as IoError, ErrorKind};

fn handle() -> FileHandle {
    FileHandle(vec![1, 2, 3])
}

fn ids(ids: &[FileAttributeId]) -> AttrSet {
    ids.iter().copied().collect()
}

fn reply(res_array: Vec<ResOp>) -> CompoundReply {
    Ok(CompoundRes { status: Ok(()), tag: String::new(), res_array })
}

fn sequence_reply() -> ResOp {
    ResOp::Sequence(Ok(nfs4::SequenceRes {
        session_id: nfs4::SessionId([0; 16]),
        sequence_id: nfs4::SequenceId(1),
        slot_id: nfs4::SlotId(0),
        highest_slot_id: nfs4::SlotId(0),
        target_highest_slot_id: nfs4::SlotId(0),
        status_flags: nfs4::SequenceStatusFlags::empty(),
    }))
}

/// A reply to a request on a file.
fn on_file(op: ResOp) -> CompoundReply {
    reply(vec![sequence_reply(), ResOp::PutFh(Ok(())), op])
}

/// A client that has gone through the handshake.
fn client(max_read: u64, max_write: u64, supported: &[FileAttributeId]) -> Client {
    let (identifying, _) = Identifying::start_as(numbered_client_owner(1));
    let named = ResOp::ExchangeId(Ok(ExchangeIdRes {
        client_id: ClientId(1),
        sequence_id: SequenceId(1),
        flags: nfs4::ExchangeIdFlags::empty(),
        state_protect: nfs4::StateProtect::None,
        server_owner: nfs4::ServerOwner { minor_id: 0, major_id: vec![] },
        server_scope: nfs4::ServerScope(vec![]),
        server_impl_id: None,
    }));
    let (opening, _) = identifying.identified(reply(vec![named])).unwrap();
    let channel = ChannelAttrs {
        header_pad_size: 0,
        max_request_size: 0,
        max_response_size: 0,
        max_response_size_cached: 0,
        max_operations: 0,
        max_requests: 0,
        rdma_ird: None,
    };
    let session = CreateSessionRes {
        session_id: SessionId([0; 16]),
        sequence_id: SequenceId(1),
        flags: nfs4::CreateSessionFlags::empty(),
        fore_channel_attrs: channel,
        back_channel_attrs: channel,
    };
    let (learning, _) = opening.opened(reply(vec![ResOp::CreateSession(Ok(session))])).unwrap();
    let object_attributes = [
        nfs4::FileAttribute::SupportedAttrs(ids(supported)),
        nfs4::FileAttribute::MaxRead(max_read),
        nfs4::FileAttribute::MaxWrite(max_write),
    ]
    .into_iter()
    .collect();
    learning
        .learnt(reply(vec![
            sequence_reply(),
            ResOp::ReclaimComplete(Ok(())),
            ResOp::PutRootFh(Ok(())),
            ResOp::GetAttr(Ok(GetAttrRes { object_attributes })),
        ]))
        .unwrap()
}

/// Number of a request.
fn number_of(args: &CompoundArgs) -> u32 {
    match &args.arg_array[0] {
        ArgOp::Sequence(sequence) => sequence.sequence_id.0,
        _ => panic!("no number"),
    }
}

fn op_of(args: CompoundArgs) -> ArgOp {
    assert_eq!(args.arg_array.len(), 3);
    assert_eq!(args.arg_array[1], ArgOp::PutFh(PutFhArgs { object: handle() }));
    args.arg_array.into_iter().nth(2).unwrap()
}

fn read_of(args: CompoundArgs) -> ReadArgs {
    match op_of(args) {
        ArgOp::Read(read) => read,
        _ => panic!("no read"),
    }
}

fn write_of(args: CompoundArgs) -> WriteArgs {
    match op_of(args) {
        ArgOp::Write(write) => write,
        _ => panic!("no write"),
    }
}

fn list_of(args: CompoundArgs) -> ReadDirArgs {
    match op_of(args) {
        ArgOp::ReadDir(list) => list,
        _ => panic!("no listing"),
    }
}

fn written(count: u32) -> CompoundReply {
    on_file(ResOp::Write(Ok(WriteRes {
        count,
        committed: StableHow::FileSync,
        write_veritifer: Verifier(0),
    })))
}

fn entry(cookie: u64, name: &str) -> DirectoryEntry {
    DirectoryEntry {
        cookie: Cookie(cookie),
        name: name.to_owned(),
        attrs: std::iter::empty().collect(),
    }
}

fn listed(entries: Vec<DirectoryEntry>, eof: bool) -> CompoundReply {
    on_file(ResOp::ReadDir(Ok(ReadDirRes {
        cookie_verifier: Verifier(0),
        reply: DirectoryList { entries, eof },
    })))
}

/// Reads all of `file`, the server giving at most `step` bytes at once.
fn load(file: &[u8], step: usize, client: &mut Client) -> Vec<u8> {
    let mut sink: Vec<u8> = vec![];
    let mut work = client.read_all(handle());
    loop {
        let (sent, args) = work.request(client);
        let read = read_of(args);
        assert_eq!(read.state_id, StateId { sequence_id: 0, other: [0; 12] });
        assert_eq!(u64::from(read.count), client.get_max_read_size());
        assert_eq!(read.offset, sink.len() as u64);
        let start = read.offset as usize;
        let end = std::cmp::min(start + step, file.len());
        let res = ReadRes { eof: end == file.len(), data: file[start..end].to_vec() };
        let part = sent.receive(on_file(ResOp::Read(Ok(res)))).unwrap();
        assert!(part.is_fitting());
        let delivery = part.hand_on();
        sink.extend(delivery.bytes());
        match delivery.delivered(Ok(())).unwrap() {
            Some(rest) => work = rest,
            None => return sink,
        }
    }
}

/// Writes `source` into `file`, the server taking all data of each request.
fn store(file: &mut Vec<u8>, source: &[u8], client: &mut Client) {
    let mut rest = source;
    let mut work = client.write_all(handle());
    loop {
        let mut buf = work.buffer(client);
        let outcome = std::io::Read::read(&mut rest, &mut buf[..]);
        let chunk = match work.fill(buf, outcome).unwrap() {
            Some(chunk) => chunk,
            None => return,
        };
        let (sent, args) = chunk.request(client);
        let write = write_of(args);
        let start = write.offset as usize;
        let end = start + write.data.len();
        if file.len() < end {
            file.resize(end, 0);
        }
        file[start..end].copy_from_slice(&write.data);
        let answer = sent.receive(written(write.data.len() as u32)).unwrap();
        assert!(answer.is_fitting());
        work = match answer.take_in() {
            WriteStep::Next(next) => next,
            WriteStep::More(_) => panic!("data left"),
        };
    }
}

fn chunk(client: &Client, buf: Vec<u8>, amount: usize) -> WriteChunk {
    client.write_all(handle()).fill(buf, Ok(amount)).unwrap().unwrap()
}

/// What `chunk` sends, and what is left once the server has written `count` bytes of it.
fn step(chunk: WriteChunk, count: u32, client: &mut Client) -> (WriteArgs, WriteStep) {
    let (sent, args) = chunk.request(client);
    (write_of(args), sent.receive(written(count)).unwrap().take_in())
}

/// What `work` asks for, and how far it gets with the reply `reply`.
fn list(work: ReadDir, reply: CompoundReply, client: &mut Client) -> (ReadDirArgs, Listing) {
    let (sent, args) = work.request(client);
    let part = sent.receive(reply).unwrap();
    assert!(part.is_usable());
    (list_of(args), part.take_in())
}

fn read_part(work: ReadAll, res: ReadRes, client: &mut Client) -> nfs4_client::transfer::Delivery {
    let (sent, _) = work.request(client);
    sent.receive(on_file(ResOp::Read(Ok(res)))).unwrap().hand_on()
}

#[test]
fn whole_file_is_read() {
    let file: Vec<u8> = (0..=9).collect();
    let mut client = client(4, 0, &[]);
    assert_eq!(load(&file, 3, &mut client), file);
    let call = client.read_link(handle());
    assert_eq!(number_of(&call.args), 6);
}

#[test]
fn empty_file_is_read() {
    let mut client = client(4, 0, &[]);
    assert_eq!(load(&[], 3, &mut client), vec![]);
    assert_eq!(number_of(&client.read_link(handle()).args), 3);
}

#[test]
fn failed_read_ends_the_work() {
    let mut client = client(4, 0, &[]);
    let (sent, _) = client.read_all(handle()).request(&mut client);
    assert!(matches!(
        sent.receive(on_file(ResOp::Read(Err(nfs4::StatusError::Io)))),
        Err(Error::Protocol(nfs4::StatusError::Io))
    ));
    let (sent, _) = client.read_all(handle()).request(&mut client);
    assert!(matches!(
        sent.receive(Err(sun_rpc_client::Error::SystemError)),
        Err(Error::SunRpc(sun_rpc_client::Error::SystemError))
    ));
}

#[test]
fn failed_sink_ends_the_work() {
    let mut client = client(4, 0, &[]);
    for eof in [false, true] {
        let work = client.read_all(handle());
        let delivery = read_part(work, ReadRes { eof, data: vec![1] }, &mut client);
        assert_eq!(*delivery.bytes(), vec![1]);
        match delivery.delivered(Err(IoError::new(ErrorKind::BrokenPipe, "sink"))) {
            Err(Error::Io(e)) => assert_eq!(e.kind(), ErrorKind::BrokenPipe),
            _ => panic!("went on"),
        }
    }
}

#[test]
fn whole_file_is_written() {
    let mut client = client(0, 4, &[]);
    let mut file: Vec<u8> = vec![];
    store(&mut file, &[1, 2, 3, 4, 5, 6, 7, 8, 9, 10], &mut client);
    assert_eq!(file, vec![1, 2, 3, 4, 5, 6, 7, 8, 9, 10]);
    assert_eq!(number_of(&client.read_link(handle()).args), 5);
}

#[test]
fn longer_file_keeps_its_end() {
    let mut client = client(0, 2, &[]);
    let mut file: Vec<u8> = vec![9; 6];
    store(&mut file, &[1, 2, 3], &mut client);
    assert_eq!(file, vec![1, 2, 3, 9, 9, 9]);
}

#[test]
fn nothing_is_written_from_an_empty_source() {
    let mut client = client(0, 4, &[]);
    let mut file: Vec<u8> = vec![];
    store(&mut file, &[], &mut client);
    assert!(file.is_empty());
    assert_eq!(number_of(&client.read_link(handle()).args), 2);
}

#[test]
fn buffer_has_room_for_one_request() {
    let client = client(0, 5, &[]);
    assert_eq!(client.write_all(handle()).buffer(&client), vec![0; 5]);
}

#[test]
fn data_is_cut_to_what_the_source_gave() {
    let mut client = client(0, 4, &[]);
    let work = chunk(&client, vec![1, 2, 3, 4], 2);
    assert_eq!(write_of(work.request(&mut client).1).data, vec![1, 2]);
    let work = chunk(&client, vec![1, 2], 4);
    assert_eq!(write_of(work.request(&mut client).1).data, vec![1, 2, 0, 0]);
}

#[test]
fn rest_of_a_partial_write_is_sent() {
    let mut client = client(0, 4, &[]);
    let work = chunk(&client, vec![1, 2, 3, 4], 4);
    let rest = match step(work, 1, &mut client).1 {
        WriteStep::More(rest) => rest,
        WriteStep::Next(_) => panic!("no data left"),
    };
    let (write, last) = step(rest, 3, &mut client);
    assert_eq!(write.data, vec![2, 3, 4]);
    assert_eq!(write.offset, 0);
    assert_eq!(write.stable, StableHow::FileSync);
    let work = match last {
        WriteStep::Next(work) => work,
        WriteStep::More(_) => panic!("data left"),
    };
    let next = work.fill(vec![5], Ok(1)).unwrap().unwrap();
    assert_eq!(write_of(next.request(&mut client).1).offset, 4);
}

#[test]
fn request_is_repeated_when_nothing_was_written() {
    let mut client = client(0, 4, &[]);
    let mut work = chunk(&client, vec![1, 2], 2);
    for _ in 0..3 {
        let (write, next) = step(work, 0, &mut client);
        assert_eq!(write.data, vec![1, 2]);
        assert_eq!(write.offset, 0);
        work = match next {
            WriteStep::More(rest) => rest,
            WriteStep::Next(_) => panic!("no data left"),
        };
    }
    assert!(matches!(step(work, 2, &mut client).1, WriteStep::Next(_)));
}

#[test]
fn server_that_writes_too_much() {
    let mut client = client(0, 4, &[]);
    let (sent, _) = chunk(&client, vec![1, 2], 2).request(&mut client);
    assert!(!sent.receive(written(3)).unwrap().is_fitting());
}

#[test]
fn failed_write_ends_the_work() {
    let mut client = client(0, 4, &[]);
    let (sent, _) = chunk(&client, vec![1, 2], 2).request(&mut client);
    assert!(matches!(
        sent.receive(on_file(ResOp::Write(Err(nfs4::StatusError::NoSpc)))),
        Err(Error::Protocol(nfs4::StatusError::NoSpc))
    ));
}

#[test]
fn failed_source_ends_the_work() {
    let client = client(0, 4, &[]);
    let outcome = Err(IoError::new(ErrorKind::Interrupted, "source"));
    match client.write_all(handle()).fill(vec![0; 4], outcome) {
        Err(Error::Io(e)) => assert_eq!(e.kind(), ErrorKind::Interrupted),
        _ => panic!("went on"),
    }
}

#[test]
fn written_file_is_read_back() {
    let mut client = client(3, 4, &[]);
    let source: Vec<u8> = (100..111).collect();
    let mut file: Vec<u8> = vec![1, 2, 3];
    store(&mut file, &source, &mut client);
    assert_eq!(load(&file, 3, &mut client), source);
}

#[test]
fn directory_is_listed() {
    let mut client = client(0, 0, &[FileAttributeId::Size, FileAttributeId::Mode]);
    let wanted = ids(&[FileAttributeId::Mode, FileAttributeId::Owner]);
    let asked = |cookie| ReadDirArgs {
        cookie: Cookie(cookie),
        cookie_verifier: Verifier(0),
        directory_count: 1000,
        max_count: 1000,
        attr_request: ids(&[FileAttributeId::Mode]),
    };
    let mut work = client.read_dir(handle(), wanted);
    let parts = [
        (0, vec![entry(3, "a"), entry(5, "b")]),
        (5, vec![]),
        (5, vec![entry(4, "c")]),
    ];
    for (cookie, entries) in parts {
        let (args, listing) = list(work, listed(entries, false), &mut client);
        assert_eq!(args, asked(cookie));
        work = match listing {
            Listing::More(more) => more,
            Listing::Complete(_) => panic!("complete"),
        };
    }
    let (args, listing) = list(work, listed(vec![entry(9, "d")], true), &mut client);
    assert_eq!(args, asked(4));
    match listing {
        Listing::More(_) => panic!("not complete"),
        Listing::Complete(entries) => assert_eq!(
            entries,
            vec![entry(3, "a"), entry(5, "b"), entry(4, "c"), entry(9, "d")],
        ),
    }
}

#[test]
fn empty_directory_is_listed() {
    let mut client = client(0, 0, &[]);
    let work = client.read_dir(handle(), ids(&[]));
    match list(work, listed(vec![], true), &mut client).1 {
        Listing::More(_) => panic!("not complete"),
        Listing::Complete(entries) => assert!(entries.is_empty()),
    }
}

#[test]
fn listing_that_does_not_tell_where_to_go_on() {
    let mut client = client(0, 0, &[]);
    let (sent, _) = client.read_dir(handle(), ids(&[])).request(&mut client);
    assert!(!sent.receive(listed(vec![], false)).unwrap().is_usable());
}

#[test]
fn failed_listing_ends_the_work() {
    let mut client = client(0, 0, &[]);
    let work = client.read_dir(handle(), ids(&[]));
    let work = match list(work, listed(vec![entry(3, "a")], false), &mut client).1 {
        Listing::More(more) => more,
        Listing::Complete(_) => panic!("complete"),
    };
    let (sent, args) = work.request(&mut client);
    assert_eq!(number_of(&args), 3);
    assert!(matches!(
        sent.receive(on_file(ResOp::ReadDir(Err(nfs4::StatusError::BadCookie)))),
        Err(Error::Protocol(nfs4::StatusError::BadCookie))
    ));
    assert_eq!(number_of(&client.read_link(handle()).args), 4);
}
