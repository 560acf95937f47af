//! Sessions and the requests that are made in them.
use nfs4::FileAttributeId;
use nfs4_client::call::{CompoundReply, COMPOUND_PROCEDURE, NFS, NFS_CB};
use nfs4_client::client::{ACCESS_ALL, SHARE_ACCESS_WRITE, SHARE_DENY_NONE};
use nfs4_client::handshake::{root_attrs_are_lacking, Identifying};
use nfs4_client::ops::{ArgOp, CompoundRes, ResOp};
use nfs4_client::owner::numbered_client_owner;
use nfs4_client::path::PathPart;
use nfs4_client::protocol::{
    AccessArgs, AttrSet, ChannelAttrs, ClientId, CommitArgs, CreateArgs, CreateHow,
    CreateSessionArgs, CreateSessionRes, CreateType, ExchangeIdArgs, ExchangeIdRes,
    FileAttributes, FileHandle, GetAttrArgs, GetAttrRes, GetFhRes, LookUpArgs, OpenArgs,
    OpenClaim, OpenFlag, PutFhArgs, ReadArgs, ReclaimCompleteArgs, RemoveArgs, RenameArgs,
    SequenceArgs, SequenceId, SessionId, SetAttrArgs, SlotId, StableHow, StateId, StateOwner,
    StateProtection, Verifier, VerifyArgs, WriteArgs,
};
use nfs4_client::{Client, Error, NFS_PORT};

const ANONYMOUS: StateId = StateId { sequence_id: 0, other: [0; 12] };

fn reply(res_array: Vec<ResOp>) -> CompoundReply {
    Ok(CompoundRes { status: Ok(()), tag: String::new(), res_array })
}

fn handle(bytes: &[u8]) -> FileHandle {
    FileHandle(bytes.to_vec())
}

fn ids(ids: &[FileAttributeId]) -> AttrSet {
    ids.iter().copied().collect()
}

fn mode(mode: u32) -> FileAttributes {
    [nfs4::FileAttribute::Mode(nfs4::Mode(mode))].into_iter().collect()
}

fn channel() -> ChannelAttrs {
    ChannelAttrs {
        header_pad_size: 0,
        max_request_size: 1,
        max_response_size: 2,
        max_response_size_cached: 3,
        max_operations: 4,
        max_requests: 5,
        rdma_ird: None,
    }
}

fn session() -> CreateSessionRes {
    CreateSessionRes {
        session_id: SessionId([7; 16]),
        sequence_id: SequenceId(1),
        flags: nfs4::CreateSessionFlags::empty(),
        fore_channel_attrs: channel(),
        back_channel_attrs: channel(),
    }
}

fn client() -> Client {
    Client::new(session(), ClientId(42), numbered_client_owner(9))
}

fn sequence(n: u32) -> ArgOp {
    ArgOp::Sequence(SequenceArgs {
        session_id: SessionId([7; 16]),
        sequence_id: SequenceId(n),
        slot_id: SlotId(0),
        highest_slot_id: SlotId(0),
        cache_this: false,
    })
}

fn put(bytes: &[u8]) -> ArgOp {
    ArgOp::PutFh(PutFhArgs { object: handle(bytes) })
}

fn sequence_reply(n: u32) -> ResOp {
    ResOp::Sequence(Ok(nfs4::SequenceRes {
        session_id: nfs4::SessionId([7; 16]),
        sequence_id: nfs4::SequenceId(n),
        slot_id: nfs4::SlotId(0),
        highest_slot_id: nfs4::SlotId(0),
        target_highest_slot_id: nfs4::SlotId(0),
        status_flags: nfs4::SequenceStatusFlags::empty(),
    }))
}

fn named(client_id: u64) -> ResOp {
    ResOp::ExchangeId(Ok(ExchangeIdRes {
        client_id: ClientId(client_id),
        sequence_id: SequenceId(1),
        flags: nfs4::ExchangeIdFlags::empty(),
        state_protect: nfs4::StateProtect::None,
        server_owner: nfs4::ServerOwner { minor_id: 0, major_id: vec![] },
        server_scope: nfs4::ServerScope(vec![]),
        server_impl_id: None,
    }))
}

/// A reply to the last request of the handshake that lacks attributes of the root.
fn lacking(reclaimed: Result<(), nfs4::StatusError>) -> CompoundReply {
    reply(vec![
        sequence_reply(1),
        ResOp::ReclaimComplete(reclaimed),
        ResOp::PutRootFh(Ok(())),
        ResOp::GetAttr(Ok(GetAttrRes { object_attributes: mode(0o644) })),
    ])
}

fn root_attrs() -> FileAttributes {
    [
        nfs4::FileAttribute::SupportedAttrs(ids(&[FileAttributeId::Size])),
        nfs4::FileAttribute::MaxRead(1000),
        nfs4::FileAttribute::MaxWrite(2000),
    ]
    .into_iter()
    .collect()
}

#[test]
fn numbers_of_the_protocol() {
    assert_eq!(NFS, 100003);
    assert_eq!(NFS_CB, 0x40000000);
    assert_eq!(NFS_PORT, 2049);
    assert_eq!(COMPOUND_PROCEDURE, 1);
    assert_eq!(SHARE_ACCESS_WRITE, nfs4::ShareAccess::WRITE.bits());
    assert_eq!(SHARE_DENY_NONE, nfs4::ShareDeny::NONE.bits());
    assert_eq!(ACCESS_ALL, nfs4::Access::all().bits());
}

#[test]
fn handshake_leads_to_a_client() {
    let (identifying, args) = Identifying::start_as(numbered_client_owner(9));
    assert_eq!(args.tag, "Test Client");
    assert_eq!(args.minor_version, 1);
    assert_eq!(
        args.arg_array,
        vec![ArgOp::ExchangeId(ExchangeIdArgs {
            client_owner: numbered_client_owner(9),
            flags: 0,
            state_protect: StateProtection::Unprotected,
            client_impl_id: None,
        })],
    );

    let (opening, args) = identifying.identified(reply(vec![named(42)])).unwrap();
    assert_eq!(
        args.arg_array,
        vec![ArgOp::CreateSession(CreateSessionArgs {
            client_id: ClientId(42),
            sequence_id: SequenceId(1),
            flags: 0,
            fore_channel_attrs: ChannelAttrs {
                header_pad_size: 0,
                max_request_size: 1049620,
                max_response_size: 1049480,
                max_response_size_cached: 7584,
                max_operations: 16,
                max_requests: 64,
                rdma_ird: None,
            },
            back_channel_attrs: ChannelAttrs {
                header_pad_size: 0,
                max_request_size: 4096,
                max_response_size: 4096,
                max_response_size_cached: 0,
                max_operations: 16,
                max_requests: 16,
                rdma_ird: None,
            },
            program: 0x40000000,
            security_parameters: vec![],
        })],
    );

    let (learning, args) =
        opening.opened(reply(vec![ResOp::CreateSession(Ok(session()))])).unwrap();
    assert_eq!(
        args.arg_array,
        vec![
            sequence(1),
            ArgOp::ReclaimComplete(ReclaimCompleteArgs { one_fs: false }),
            ArgOp::PutRootFh,
            ArgOp::GetAttr(GetAttrArgs {
                attr_request: ids(&[
                    FileAttributeId::SupportedAttrs,
                    FileAttributeId::MaxRead,
                    FileAttributeId::MaxWrite,
                ]),
            }),
        ],
    );

    let client = learning
        .learnt(reply(vec![
            sequence_reply(1),
            ResOp::ReclaimComplete(Ok(())),
            ResOp::PutRootFh(Ok(())),
            ResOp::GetAttr(Ok(GetAttrRes { object_attributes: root_attrs() })),
        ]))
        .unwrap();
    assert_eq!(client.get_max_read_size(), 1000);
    assert_eq!(client.get_max_write_size(), 2000);
    let mut client = client;
    let attr_request = ids(&[FileAttributeId::Size]);
    assert_eq!(
        client.get_attr(handle(&[1])).args.arg_array,
        vec![sequence(2), put(&[1]), ArgOp::GetAttr(GetAttrArgs { attr_request })],
    );
    match &client.create_file(handle(&[1]), "new", mode(0o600)).args.arg_array[2] {
        ArgOp::Open(open) => {
            assert_eq!(open.owner.client_id, ClientId(42));
            assert_eq!(open.owner.opaque, numbered_client_owner(9).owner_id);
        }
        _ => panic!("other operation"),
    }
}

#[test]
fn handshake_starts_with_a_random_name() {
    let (_, args) = Identifying::start();
    assert_eq!(args.arg_array.len(), 1);
    match &args.arg_array[0] {
        ArgOp::ExchangeId(args) => {
            assert_eq!(args.client_owner.verifier, Verifier(0));
            assert_eq!(args.client_owner.owner_id.len(), 8);
        }
        _ => panic!("other operation"),
    }
}

#[test]
fn handshake_fails_with_the_server() {
    let (identifying, _) = Identifying::start_as(numbered_client_owner(9));
    let refused = reply(vec![ResOp::ExchangeId(Err(nfs4::StatusError::Perm))]);
    assert!(matches!(
        identifying.identified(refused),
        Err(Error::Protocol(nfs4::StatusError::Perm))
    ));

    let (identifying, _) = Identifying::start_as(numbered_client_owner(9));
    let (opening, _) = identifying.identified(reply(vec![named(42)])).unwrap();
    assert!(matches!(
        opening.opened(Err(sun_rpc_client::Error::SystemError)),
        Err(Error::SunRpc(sun_rpc_client::Error::SystemError))
    ));

    let (identifying, _) = Identifying::start_as(numbered_client_owner(9));
    let (opening, _) = identifying.identified(reply(vec![named(42)])).unwrap();
    let (learning, _) = opening.opened(reply(vec![ResOp::CreateSession(Ok(session()))])).unwrap();
    assert!(matches!(
        learning.learnt(reply(vec![])),
        Err(Error::CompoundResponseMismatch(_))
    ));
}

#[test]
fn handshake_needs_the_attributes_of_the_root() {
    let (identifying, _) = Identifying::start_as(numbered_client_owner(9));
    let (opening, _) = identifying.identified(reply(vec![named(42)])).unwrap();
    let (learning, _) = opening.opened(reply(vec![ResOp::CreateSession(Ok(session()))])).unwrap();
    let client = learning
        .learnt_if_told(lacking(Ok(())))
        .unwrap();
    assert!(client.is_none());
    assert!(root_attrs_are_lacking(&lacking(Ok(()))));
}

#[test]
fn failed_request_comes_before_missing_attributes() {
    let (identifying, _) = Identifying::start_as(numbered_client_owner(9));
    let (opening, _) = identifying.identified(reply(vec![named(42)])).unwrap();
    let (learning, _) = opening.opened(reply(vec![ResOp::CreateSession(Ok(session()))])).unwrap();
    assert!(matches!(
        learning.learnt_if_told(lacking(Err(nfs4::StatusError::Perm))),
        Err(Error::Protocol(nfs4::StatusError::Perm))
    ));

    let (identifying, _) = Identifying::start_as(numbered_client_owner(9));
    let (opening, _) = identifying.identified(reply(vec![named(42)])).unwrap();
    let (learning, _) = opening.opened(reply(vec![ResOp::CreateSession(Ok(session()))])).unwrap();
    assert!(matches!(
        learning.learnt(lacking(Err(nfs4::StatusError::Perm))),
        Err(Error::Protocol(nfs4::StatusError::Perm))
    ));
}

#[test]
fn told_client_is_ready() {
    let (identifying, _) = Identifying::start_as(numbered_client_owner(9));
    let (opening, _) = identifying.identified(reply(vec![named(42)])).unwrap();
    let (learning, _) = opening.opened(reply(vec![ResOp::CreateSession(Ok(session()))])).unwrap();
    let telling = || {
        reply(vec![
            sequence_reply(1),
            ResOp::ReclaimComplete(Ok(())),
            ResOp::PutRootFh(Ok(())),
            ResOp::GetAttr(Ok(GetAttrRes { object_attributes: root_attrs() })),
        ])
    };
    assert!(!root_attrs_are_lacking(&telling()));
    assert!(!root_attrs_are_lacking(&reply(vec![])));
    let client = learning.learnt_if_told(telling()).unwrap().unwrap();
    assert_eq!(client.get_max_read_size(), 1000);
    assert_eq!(client.get_max_write_size(), 2000);
}

#[test]
fn new_client_knows_nothing() {
    let mut client = client();
    assert_eq!(client.get_max_read_size(), 0);
    assert_eq!(client.get_max_write_size(), 0);
    assert!(client.has_number_left());
    let attr_request = ids(&[]);
    assert_eq!(
        client.get_attr(handle(&[1])).args.arg_array,
        vec![sequence(1), put(&[1]), ArgOp::GetAttr(GetAttrArgs { attr_request })],
    );
}

#[test]
fn requests_are_numbered() {
    let mut client = client();
    for n in 1..5 {
        let call = client.read_link(handle(&[1]));
        assert_eq!(call.args.arg_array, vec![sequence(n), put(&[1]), ArgOp::ReadLink]);
    }
}

#[test]
fn last_reply_is_the_response() {
    let call = client().read_link(handle(&[1]));
    let response = call.pending.finish(reply(vec![
        sequence_reply(1),
        ResOp::PutFh(Ok(())),
        ResOp::ReadLink(Ok(nfs4::ReadLinkRes { link: "target".to_owned() })),
    ]));
    assert_eq!(response.unwrap().link, "target");

    let call = client().read_link(handle(&[1]));
    let response = call.pending.finish(reply(vec![
        ResOp::Sequence(Err(nfs4::StatusError::BadSession)),
        ResOp::PutFh(Ok(())),
        ResOp::ReadLink(Ok(nfs4::ReadLinkRes { link: "target".to_owned() })),
    ]));
    assert!(matches!(response, Err(Error::Protocol(nfs4::StatusError::BadSession))));
}

#[test]
fn null_procedure() {
    assert!(Client::null(Ok(())).is_ok());
    assert!(matches!(
        Client::null(Err(sun_rpc_client::Error::UnexpectedReply)),
        Err(Error::SunRpc(sun_rpc_client::Error::UnexpectedReply))
    ));
}

#[test]
fn access_asks_about_known_permissions() {
    let mut client = client();
    let call = client.access(handle(&[1]), 0xffff_ff05);
    assert_eq!(
        call.args.arg_array,
        vec![sequence(1), put(&[1]), ArgOp::Access(AccessArgs { access: 5 })],
    );
    let call = client.access(handle(&[1]), 0x3f);
    assert_eq!(call.args.arg_array[2], ArgOp::Access(AccessArgs { access: 0x3f }));
    let call = client.access(handle(&[1]), 0x40);
    assert_eq!(call.args.arg_array[2], ArgOp::Access(AccessArgs { access: 0 }));
}

#[test]
fn commit_request() {
    let call = client().commit(handle(&[1]), 10, 20);
    assert_eq!(
        call.args.arg_array,
        vec![sequence(1), put(&[1]), ArgOp::Commit(CommitArgs { offset: 10, count: 20 })],
    );
}

#[test]
fn get_attr_asks_for_readable_attributes() {
    let (identifying, _) = Identifying::start_as(numbered_client_owner(9));
    let (opening, _) = identifying.identified(reply(vec![named(42)])).unwrap();
    let (learning, _) = opening.opened(reply(vec![ResOp::CreateSession(Ok(session()))])).unwrap();
    let supported = ids(&[
        FileAttributeId::Size,
        FileAttributeId::TimeAccessSet,
        FileAttributeId::TimeModify,
        FileAttributeId::TimeModifySet,
    ]);
    let object_attributes = [
        nfs4::FileAttribute::SupportedAttrs(supported),
        nfs4::FileAttribute::MaxRead(1),
        nfs4::FileAttribute::MaxWrite(1),
    ]
    .into_iter()
    .collect();
    let mut client = learning
        .learnt(reply(vec![
            sequence_reply(1),
            ResOp::ReclaimComplete(Ok(())),
            ResOp::PutRootFh(Ok(())),
            ResOp::GetAttr(Ok(GetAttrRes { object_attributes })),
        ]))
        .unwrap();
    let call = client.get_attr(handle(&[1]));
    let attr_request = ids(&[FileAttributeId::Size, FileAttributeId::TimeModify]);
    assert_eq!(
        call.args.arg_array,
        vec![sequence(2), put(&[1]), ArgOp::GetAttr(GetAttrArgs { attr_request })],
    );
}

#[test]
fn look_up_in_takes_the_name_whole() {
    let call = client().look_up_in(handle(&[1]), "a/../b");
    assert_eq!(
        call.args.arg_array,
        vec![
            sequence(1),
            put(&[1]),
            ArgOp::LookUp(LookUpArgs { object_name: "a/../b".to_owned() }),
            ArgOp::GetFh,
        ],
    );
    let found = call.pending.finish_handle(reply(vec![
        sequence_reply(1),
        ResOp::PutFh(Ok(())),
        ResOp::LookUp(Ok(())),
        ResOp::GetFh(Ok(GetFhRes { object: handle(&[3]) })),
    ]));
    assert_eq!(found.unwrap(), handle(&[3]));
}

#[test]
fn look_up_goes_name_by_name() {
    let call = client().look_up_unix("/usr//lib/./x");
    let name = |name: &str| ArgOp::LookUp(LookUpArgs { object_name: name.to_owned() });
    assert_eq!(
        call.args.arg_array,
        vec![
            sequence(1),
            ArgOp::PutRootFh,
            name("usr"),
            name("lib"),
            name("x"),
            ArgOp::GetFh,
        ],
    );
    let found = call.pending.finish_handle(reply(vec![
        sequence_reply(1),
        ResOp::PutRootFh(Ok(())),
        ResOp::LookUp(Ok(())),
        ResOp::LookUp(Err(nfs4::StatusError::NoEnt)),
    ]));
    assert!(matches!(found, Err(Error::Protocol(nfs4::StatusError::NoEnt))));
}

#[test]
fn look_up_of_a_split_path() {
    let call = client().look_up(vec![
        PathPart::Prefix,
        PathPart::RootDir,
        PathPart::Normal("usr".to_owned()),
        PathPart::CurDir,
        PathPart::ParentDir,
        PathPart::Normal("a/b".to_owned()),
    ]);
    let name = |name: &str| ArgOp::LookUp(LookUpArgs { object_name: name.to_owned() });
    assert_eq!(
        call.args.arg_array,
        vec![sequence(1), ArgOp::PutRootFh, name("usr"), name("a/b"), ArgOp::GetFh],
    );
}

#[test]
fn look_up_of_the_root() {
    let call = client().look_up_unix("/");
    assert_eq!(call.args.arg_array, vec![sequence(1), ArgOp::PutRootFh, ArgOp::GetFh]);
    let found = call.pending.finish_handle(reply(vec![
        sequence_reply(1),
        ResOp::PutRootFh(Ok(())),
        ResOp::GetFh(Ok(GetFhRes { object: handle(&[0]) })),
    ]));
    assert_eq!(found.unwrap(), handle(&[0]));
}

#[test]
fn read_request() {
    let call = client().read(handle(&[1]), 100, 50);
    let read = ReadArgs { state_id: ANONYMOUS, offset: 100, count: 50 };
    assert_eq!(call.args.arg_array, vec![sequence(1), put(&[1]), ArgOp::Read(read)]);
    assert_eq!(nfs4::StateId::anonymous(), nfs4::StateId { sequence_id: 0, other: [0; 12] });
}

#[test]
fn write_request() {
    let call = client().write(handle(&[1]), 100, vec![4, 5]);
    let write = WriteArgs {
        state_id: ANONYMOUS,
        offset: 100,
        stable: StableHow::FileSync,
        data: vec![4, 5],
    };
    assert_eq!(call.args.arg_array, vec![sequence(1), put(&[1]), ArgOp::Write(write)]);
}

#[test]
fn create_file_request() {
    let call = client().create_file(handle(&[1]), "new", mode(0o600));
    let open = OpenArgs {
        sequence_id: SequenceId(0),
        share_access: 2,
        share_deny: 0,
        owner: StateOwner { client_id: ClientId(42), opaque: vec![0, 0, 0, 0, 0, 0, 0, 9] },
        open_how: OpenFlag::OpenCreate(CreateHow::Guarded { create_attrs: mode(0o600) }),
        claim: OpenClaim::Null { file: "new".to_owned() },
    };
    assert_eq!(
        call.args.arg_array,
        vec![sequence(1), put(&[1]), ArgOp::Open(open), ArgOp::GetFh],
    );
}

#[test]
fn set_attr_request() {
    let call = client().set_attr(handle(&[1]), mode(0o600));
    let set = SetAttrArgs { state_id: ANONYMOUS, object_attributes: mode(0o600) };
    assert_eq!(call.args.arg_array, vec![sequence(1), put(&[1]), ArgOp::SetAttr(set)]);
}

#[test]
fn set_attr_verified_request() {
    let call = client().set_attr_verified(handle(&[1]), mode(0o600), mode(0o644));
    let verify = VerifyArgs { object_attributes: mode(0o644) };
    let set = SetAttrArgs { state_id: ANONYMOUS, object_attributes: mode(0o600) };
    assert_eq!(
        call.args.arg_array,
        vec![sequence(1), put(&[1]), ArgOp::Verify(verify), ArgOp::SetAttr(set)],
    );
    let outcome = call.pending.finish_unit(reply(vec![
        sequence_reply(1),
        ResOp::PutFh(Ok(())),
        ResOp::Verify(Err(nfs4::StatusError::NotSame)),
    ]));
    assert!(matches!(outcome, Err(Error::Protocol(nfs4::StatusError::NotSame))));
}

#[test]
fn remove_request() {
    let call = client().remove(handle(&[1]), "old");
    let remove = RemoveArgs { target: "old".to_owned() };
    assert_eq!(call.args.arg_array, vec![sequence(1), put(&[1]), ArgOp::Remove(remove)]);
}

#[test]
fn rename_request() {
    let call = client().rename(handle(&[1]), handle(&[2]), "from", "to");
    let rename = RenameArgs { old_name: "from".to_owned(), new_name: "to".to_owned() };
    assert_eq!(
        call.args.arg_array,
        vec![sequence(1), put(&[1]), ArgOp::SaveFh, put(&[2]), ArgOp::Rename(rename)],
    );
}

#[test]
fn create_directory_request() {
    let call = client().create_directory(handle(&[1]), "dir", mode(0o755));
    let create = CreateArgs {
        object_type: CreateType::Directory,
        object_name: "dir".to_owned(),
        create_attrs: mode(0o755),
    };
    assert_eq!(
        call.args.arg_array,
        vec![sequence(1), put(&[1]), ArgOp::Create(create), ArgOp::GetFh],
    );
}

#[test]
fn create_link_request() {
    let call = client().create_link("/to", handle(&[1]), "link", mode(0o777));
    let create = CreateArgs {
        object_type: CreateType::Link("/to".to_owned()),
        object_name: "link".to_owned(),
        create_attrs: mode(0o777),
    };
    assert_eq!(
        call.args.arg_array,
        vec![sequence(1), put(&[1]), ArgOp::Create(create), ArgOp::GetFh],
    );
}
