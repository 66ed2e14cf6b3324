use tiktok_api::media_transfer::{
    part_outcome, PartOutcome, UploadError, UploadSession, UploadState, CHUNK_SIZE_MIN,
};

fn ranges_until_done(session: &mut UploadSession, answer: impl Fn(usize) -> PartOutcome) -> Vec<(usize, usize)> {
    let mut seen = Vec::new();
    while let Some(range) = session.next_part() {
        let index = seen.len();
        seen.push((range.start, range.end));
        session.record(answer(index));
    }
    seen
}

#[test]
fn session_all_chunks_accepted() {
    let mut session = UploadSession::new(150_000_000, None).unwrap();
    assert_eq!(session.total_chunk_count(), 2);
    let count = session.total_chunk_count();
    let ranges = ranges_until_done(&mut session, |i| {
        if i + 1 == count {
            Ok(201)
        } else {
            Ok(206)
        }
    });
    assert_eq!(ranges, vec![(0, 67_108_864), (67_108_864, 150_000_000)]);
    assert_eq!(session.state(), UploadState::Done);
    let outcomes = session.into_outcomes();
    assert_eq!(outcomes.len(), 2);
    assert!(matches!(outcomes[0], Ok(206)));
    assert!(matches!(outcomes[1], Ok(201)));
}

#[test]
fn session_stops_at_first_failure() {
    let mut session = UploadSession::new(4 * CHUNK_SIZE_MIN, Some(CHUNK_SIZE_MIN)).unwrap();
    assert_eq!(session.total_chunk_count(), 4);
    let ranges = ranges_until_done(&mut session, |i| {
        if i == 2 {
            Err(UploadError::ResponseMismatch(400, b"{\"error\":{\"code\":\"invalid_params\"}}".to_vec()))
        } else {
            Ok(206)
        }
    });
    assert_eq!(ranges.len(), 3);
    assert_eq!(ranges[2], (2 * CHUNK_SIZE_MIN, 3 * CHUNK_SIZE_MIN));
    assert_eq!(session.state(), UploadState::Failed);
    assert!(session.next_part().is_none());
    let outcomes = session.into_outcomes();
    assert_eq!(outcomes.len(), 3);
    assert!(matches!(outcomes[0], Ok(206)));
    assert!(matches!(outcomes[1], Ok(206)));
    match &outcomes[2] {
        Err(UploadError::ResponseMismatch(status, body)) => {
            assert_eq!(*status, 400);
            assert_eq!(body.as_slice(), b"{\"error\":{\"code\":\"invalid_params\"}}");
        }
        other => panic!("{other:?}"),
    }
}

#[test]
fn session_failure_on_first_chunk() {
    let mut session = UploadSession::new(20_000_000, Some(CHUNK_SIZE_MIN)).unwrap();
    let ranges = ranges_until_done(&mut session, |_| Err(UploadError::ResponseMismatch(500, vec![])));
    assert_eq!(ranges, vec![(0, CHUNK_SIZE_MIN)]);
    assert_eq!(session.outcomes().len(), 1);
}

#[test]
fn session_refuses_plan_over_chunk_limit() {
    match UploadSession::new(CHUNK_SIZE_MIN * 1001, Some(CHUNK_SIZE_MIN)) {
        Err(UploadError::ChunkSizeTooSmaillOrFileTooLarge) => {}
        other => panic!("{other:?}"),
    }
    assert!(UploadSession::new(CHUNK_SIZE_MIN * 1000, Some(CHUNK_SIZE_MIN)).is_ok());
}

#[test]
fn session_single_chunk_source() {
    let mut session = UploadSession::new(10_485_760, None).unwrap();
    assert_eq!(session.chunk_size(), 10_485_760);
    assert_eq!(session.video_size(), 10_485_760);
    let ranges = ranges_until_done(&mut session, |_| Ok(201));
    assert_eq!(ranges, vec![(0, 10_485_760)]);
    assert_eq!(session.state(), UploadState::Done);
}

#[test]
fn session_ignores_outcome_after_finish() {
    let mut session = UploadSession::new(1_000, None).unwrap();
    session.record(Ok(201));
    assert_eq!(session.state(), UploadState::Done);
    session.record(Ok(206));
    assert_eq!(session.outcomes().len(), 1);
}

#[test]
fn part_outcome_classifies_status() {
    assert!(matches!(part_outcome(206, Ok(vec![])), Ok(206)));
    assert!(matches!(part_outcome(201, Ok(vec![1])), Ok(201)));
    match part_outcome(400, Ok(b"bad".to_vec())) {
        Err(UploadError::ResponseMismatch(400, body)) => assert_eq!(body, b"bad".to_vec()),
        other => panic!("{other:?}"),
    }
}

#[test]
fn part_outcome_unreadable_body() {
    let err = reqwest::Client::new().get("not a url").build().unwrap_err();
    match part_outcome(400, Err(err)) {
        Err(UploadError::ReadResponseBodyFailed(_)) => {}
        other => panic!("{other:?}"),
    }
    let err = reqwest::Client::new().get("not a url").build().unwrap_err();
    assert!(matches!(part_outcome(201, Err(err)), Ok(201)));
}
