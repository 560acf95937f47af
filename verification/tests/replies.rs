//! How the replies to compound requests are taken apart.
use nfs4_client::call::{Call, CompoundReply};
use nfs4_client::compound::{CompoundRequest, ReturnSecond};
use nfs4_client::error::{Error, TempResult};
use nfs4_client::ops::{ArgOp, CompoundRes, OperationId, ResOp};
use nfs4_client::protocol::{
    CommitArgs, FileHandle, GetFhRes, LookUpArgs, PutFhArgs, RemoveArgs, RemoveRes,
    SetAttrStatusResult,
};
use nfs4_client::requests::{
    GetFh, LookUpP, PutPubFh, PutRootFh, ReadLink, RestoreFh, SaveFh,
};
use std::collections::VecDeque;

fn reply(res_array: Vec<ResOp>) -> CompoundReply {
    Ok(CompoundRes { status: Ok(()), tag: "Test Client".to_owned(), res_array })
}

fn handle(bytes: &[u8]) -> FileHandle {
    FileHandle(bytes.to_vec())
}

fn got_handle(bytes: &[u8]) -> ResOp {
    ResOp::GetFh(Ok(GetFhRes { object: handle(bytes) }))
}

fn look_up(name: &str) -> LookUpArgs {
    LookUpArgs { object_name: name.to_owned() }
}

fn change_info() -> nfs4::ChangeInfo {
    let bytes: Vec<u8> = vec![0, 0, 0, 1, 0, 0, 0, 0, 0, 0, 0, 7, 0, 0, 0, 0, 0, 0, 0, 8];
    serde_xdr::from_bytes(bytes).unwrap()
}

fn mismatch<T>(outcome: Result<T, Error>) -> String {
    match outcome {
        Err(Error::CompoundResponseMismatch(text)) => text,
        _ => panic!("no mismatch"),
    }
}

#[test]
fn request_holds_operations_in_order() {
    let call = Call::new(ReturnSecond((PutRootFh, vec![look_up("a"), look_up("b")]), GetFh));
    assert_eq!(call.args.tag, "Test Client");
    assert_eq!(call.args.minor_version, 1);
    assert_eq!(
        call.args.arg_array,
        vec![
            ArgOp::PutRootFh,
            ArgOp::LookUp(look_up("a")),
            ArgOp::LookUp(look_up("b")),
            ArgOp::GetFh,
        ],
    );
}

#[test]
fn second_response_is_returned() {
    let call = Call::new(ReturnSecond((PutRootFh, vec![look_up("a"), look_up("b")]), GetFh));
    let response = call.pending.finish(reply(vec![
        ResOp::PutRootFh(Ok(())),
        ResOp::LookUp(Ok(())),
        ResOp::LookUp(Ok(())),
        got_handle(&[1, 2]),
    ]));
    assert_eq!(response.unwrap(), GetFhRes { object: handle(&[1, 2]) });
}

#[test]
fn vector_gives_one_response_per_item() {
    let call = Call::new(vec![(PutRootFh, GetFh), (PutRootFh, GetFh)]);
    let response = call.pending.finish(reply(vec![
        ResOp::PutRootFh(Ok(())),
        got_handle(&[1]),
        ResOp::PutRootFh(Ok(())),
        got_handle(&[2]),
    ]));
    assert_eq!(
        response.unwrap(),
        vec![
            ((), GetFhRes { object: handle(&[1]) }),
            ((), GetFhRes { object: handle(&[2]) }),
        ],
    );
}

#[test]
fn empty_vector_asks_nothing() {
    let items: Vec<GetFh> = vec![];
    let call = Call::new(items);
    assert_eq!(call.args.arg_array, vec![]);
    assert_eq!(call.pending.finish(reply(vec![])).unwrap(), vec![]);
}

#[test]
fn item_without_operations_has_a_response() {
    let items: Vec<Vec<GetFh>> = vec![vec![], vec![GetFh], vec![]];
    let (ops, shape) = items.clone().into_arg_array();
    assert_eq!(ops, vec![ArgOp::GetFh]);
    assert_eq!(shape, vec![vec![], vec![()], vec![]]);
    let call = Call::new(items);
    let response = call.pending.finish(reply(vec![got_handle(&[1])])).unwrap();
    assert_eq!(response, vec![vec![], vec![GetFhRes { object: handle(&[1]) }], vec![]]);
}

#[test]
fn joined_vectors() {
    let (mut ops, mut shape) = vec![vec![GetFh], vec![]].into_arg_array();
    let (more_ops, more_shape) = vec![vec![GetFh, GetFh]].into_arg_array();
    ops.extend(more_ops);
    shape.extend(more_shape);
    let joined = vec![vec![GetFh], vec![], vec![GetFh, GetFh]].into_arg_array();
    assert_eq!(joined, (ops, shape));
}

#[test]
fn tuple_gives_all_responses() {
    let call = Call::new((PutRootFh, GetFh, SaveFh, ReadLink));
    assert_eq!(
        call.args.arg_array,
        vec![ArgOp::PutRootFh, ArgOp::GetFh, ArgOp::SaveFh, ArgOp::ReadLink],
    );
    let (_, file, _, link) = call
        .pending
        .finish(reply(vec![
            ResOp::PutRootFh(Ok(())),
            got_handle(&[9]),
            ResOp::SaveFh(Ok(())),
            ResOp::ReadLink(Ok(nfs4::ReadLinkRes { link: "/x".to_owned() })),
        ]))
        .unwrap();
    assert_eq!(file.object, handle(&[9]));
    assert_eq!(link.link, "/x");
}

#[test]
fn longest_tuple_gives_all_responses() {
    let g = GetFh;
    let call = Call::new((g, g, g, g, g, g, g, g, g, g, g, g, g, g, g, g, SaveFh));
    assert_eq!(call.args.arg_array.len(), 17);
    assert_eq!(call.args.arg_array[16], ArgOp::SaveFh);
    let mut replies: Vec<ResOp> = (0..16u8).map(|i| got_handle(&[i])).collect();
    replies.push(ResOp::SaveFh(Ok(())));
    let response = call.pending.finish(reply(replies)).unwrap();
    assert_eq!(response.0.object, handle(&[0]));
    assert_eq!(response.7.object, handle(&[7]));
    assert_eq!(response.15.object, handle(&[15]));
}

#[test]
fn too_few_replies_are_refused() {
    let call = Call::new((PutRootFh, GetFh));
    let response = call.pending.finish(reply(vec![ResOp::PutRootFh(Ok(()))]));
    assert_eq!(mismatch(response), "too few replies");
}

#[test]
fn reply_to_other_operation_is_refused() {
    let call = Call::new((PutRootFh, GetFh));
    let response = call
        .pending
        .finish(reply(vec![ResOp::PutRootFh(Ok(())), ResOp::LookUp(Ok(()))]));
    assert_eq!(mismatch(response), "expected GetFh, got LookUp(Ok(()))");
}

#[test]
fn text_of_other_reply_is_the_one_of_the_protocol_crate() {
    let outside = nfs4::ResOp::GetFh(nfs4::StatusResult::Ok(nfs4::GetFhRes {
        object: nfs4::FileHandle(vec![1, 2]),
    }));
    let call = Call::new(PutRootFh);
    let response = call.pending.finish(reply(vec![got_handle(&[1, 2])]));
    assert_eq!(mismatch(response), format!("expected PutRootFh, got {outside:?}"));
}

#[test]
fn trailing_replies_are_refused() {
    let call = Call::new(PutRootFh);
    let response = call.pending.finish(reply(vec![
        ResOp::PutRootFh(Ok(())),
        ResOp::SaveFh(Ok(())),
        ResOp::LookUp(Err(nfs4::StatusError::NoEnt)),
    ]));
    assert_eq!(
        mismatch(response),
        "trailing response: [SaveFh(Ok(())), LookUp(Err(NoEnt))]",
    );
}

#[test]
fn first_failure_decides() {
    let call = Call::new((PutRootFh, look_up("a"), GetFh));
    let response = call.pending.finish(reply(vec![
        ResOp::PutRootFh(Ok(())),
        ResOp::LookUp(Err(nfs4::StatusError::NoEnt)),
    ]));
    assert!(matches!(response, Err(Error::Protocol(nfs4::StatusError::NoEnt))));

    let call = Call::new((PutRootFh, look_up("a"), GetFh));
    let response = call.pending.finish(reply(vec![
        ResOp::GetFh(Err(nfs4::StatusError::Access)),
        ResOp::LookUp(Err(nfs4::StatusError::NoEnt)),
    ]));
    assert_eq!(mismatch(response), "expected PutRootFh, got GetFh(Err(Access))");
}

#[test]
fn status_of_whole_request_comes_before_its_replies() {
    let call = Call::new(PutRootFh);
    let response = call.pending.finish(Ok(CompoundRes {
        status: Err(nfs4::StatusError::Perm),
        tag: String::new(),
        res_array: vec![ResOp::SaveFh(Ok(()))],
    }));
    assert!(matches!(response, Err(Error::Protocol(nfs4::StatusError::Perm))));
}

#[test]
fn failed_exchange_is_reported() {
    let call = Call::new(PutRootFh);
    let response = call.pending.finish(Err(sun_rpc_client::Error::ProgramUnavailable));
    assert!(matches!(
        response,
        Err(Error::SunRpc(sun_rpc_client::Error::ProgramUnavailable))
    ));
}

#[test]
fn lock_failure_is_reported_with_its_details() {
    let call = Call::new(nfs4::LinkArgs { new_name: "n".to_owned() });
    let response = call.pending.finish(reply(vec![ResOp::Link(Err(nfs4::LockStatusError {
        error: nfs4::StatusError::Exist,
        denied: None,
    }))]));
    match response {
        Err(Error::Lock(e)) => assert_eq!(e.error, nfs4::StatusError::Exist),
        _ => panic!("no lock failure"),
    }
}

#[test]
fn unit_response() {
    let call = Call::new((PutRootFh, GetFh));
    assert!(call
        .pending
        .finish_unit(reply(vec![ResOp::PutRootFh(Ok(())), got_handle(&[1])]))
        .is_ok());
    let call = Call::new((PutRootFh, GetFh));
    let response = call.pending.finish_unit(reply(vec![]));
    assert_eq!(mismatch(response), "too few replies");
}

#[test]
fn handle_response() {
    let call = Call::new(ReturnSecond(PutRootFh, GetFh));
    let response = call
        .pending
        .finish_handle(reply(vec![ResOp::PutRootFh(Ok(())), got_handle(&[5])]));
    assert_eq!(response.unwrap(), handle(&[5]));
}

#[test]
fn change_info_response() {
    let remove = RemoveArgs { target: "old".to_owned() };
    let call = Call::new(ReturnSecond(PutFhArgs { object: handle(&[1]) }, remove));
    let response = call.pending.finish_change_info(reply(vec![
        ResOp::PutFh(Ok(())),
        ResOp::Remove(Ok(RemoveRes { change_info: change_info() })),
    ]));
    assert_eq!(response.unwrap(), change_info());
}

#[test]
fn replies_are_taken_from_the_front() {
    let mut replies: VecDeque<ResOp> = VecDeque::new();
    replies.push_back(got_handle(&[1]));
    replies.push_back(got_handle(&[2]));
    replies.push_back(ResOp::SaveFh(Ok(())));
    let response = <(GetFh, GetFh)>::process_reply(&mut replies, ((), ())).unwrap();
    assert_eq!(response.0.object, handle(&[1]));
    assert_eq!(response.1.object, handle(&[2]));
    assert_eq!(replies, vec![ResOp::SaveFh(Ok(()))]);
}

#[test]
fn operations_know_their_names() {
    let (ops, _) = CommitArgs { offset: 3, count: 4 }.into_arg_array();
    assert_eq!(ops, vec![ArgOp::Commit(CommitArgs { offset: 3, count: 4 })]);
    assert_eq!(OperationId::Commit.name(), "Commit");
    assert_eq!(OperationId::BindConnToSession.name(), "BindConnToSession");
}

#[test]
fn operations_without_arguments() {
    assert_eq!(ArgOp::from(GetFh), ArgOp::GetFh);
    assert_eq!(ArgOp::from(LookUpP), ArgOp::LookUpP);
    assert_eq!(ArgOp::from(PutPubFh), ArgOp::PutPubFh);
    assert_eq!(ArgOp::from(PutRootFh), ArgOp::PutRootFh);
    assert_eq!(ArgOp::from(ReadLink), ArgOp::ReadLink);
    assert_eq!(ArgOp::from(RestoreFh), ArgOp::RestoreFh);
    assert_eq!(ArgOp::from(SaveFh), ArgOp::SaveFh);
}

#[test]
fn set_attr_fails_by_its_status() {
    let set = |status| SetAttrStatusResult {
        status,
        res: nfs4::SetAttrRes { attr_set: [nfs4::FileAttributeId::Mode].into_iter().collect() },
    };
    let set_attrs = TempResult::from(set(Ok(()))).0.unwrap().attr_set;
    assert_eq!(set_attrs, [nfs4::FileAttributeId::Mode].into_iter().collect());
    assert!(matches!(
        TempResult::from(set(Err(nfs4::StatusError::Inval))).0,
        Err(Error::Protocol(nfs4::StatusError::Inval))
    ));
}

#[test]
fn outcomes_of_operations() {
    let fine: Result<u8, nfs4::StatusError> = Ok(7);
    assert_eq!(TempResult::from(fine).0.unwrap(), 7);
    let locked: Result<u8, nfs4::LockStatusError> =
        Err(nfs4::LockStatusError { error: nfs4::StatusError::Denied, denied: None });
    assert!(matches!(TempResult::from(locked).0, Err(Error::Lock(_))));
}

#[test]
fn errors_of_data_sources() {
    let e = Error::from(std::io::Error::new(std::io::ErrorKind::NotFound, "gone"));
    match e {
        Error::Io(e) => assert_eq!(e.kind(), std::io::ErrorKind::NotFound),
        _ => panic!("other error"),
    }
}
