use api::events::{ThreadEvent, ThreadEventKind};
use api::reply::Status;
use api::run::{start_run, RunStep, ScriptedRun};
use api::stamp::{Stamp, Timestamp};

fn st(id: u128) -> Stamp {
    Stamp { id, at: Timestamp { secs: id as i64, nanos: 1 } }
}

#[test]
fn scripted_run_publishes_the_exchange() {
    let mut run = ScriptedRun::new(11, 22);
    let mut published: Vec<ThreadEvent> = Vec::new();
    let mut pauses = Vec::new();
    for i in 0..7u128 {
        assert_eq!(run.position(), i as usize);
        match run.next_step(st(100 + i), st(200 + i)) {
            RunStep::Publish(e) => {
                assert_eq!(e.thread_id, 11);
                assert_eq!(e.id, 100 + i);
                assert_eq!(e.occurred_at, st(100 + i).at);
                published.push(e);
            }
            RunStep::Pause(secs) => pauses.push(secs),
            RunStep::Done => panic!("the script ended early"),
        }
    }
    assert_eq!(pauses, vec![1, 1, 1]);
    assert_eq!(published.len(), 4);
    assert_eq!(published[0].kind, ThreadEventKind::RunStarted { run_id: 22, turn_limit: 2 });
    assert_eq!(
        published[1].kind,
        ThreadEventKind::MessageCreated {
            run_id: 22,
            message_id: 202,
            role: "agent_a".to_string(),
            content: "こんにちは、今日はどんな話をしましょうか？".to_string(),
            created_at: st(202).at,
        }
    );
    assert_eq!(
        published[2].kind,
        ThreadEventKind::MessageCreated {
            run_id: 22,
            message_id: 204,
            role: "agent_b".to_string(),
            content: "春の散歩について話したいです。".to_string(),
            created_at: st(204).at,
        }
    );
    assert_eq!(published[3].kind, ThreadEventKind::RunCompleted { run_id: 22, generated_messages: 2 });
    for _ in 0..3 {
        assert!(matches!(run.next_step(st(1), st(2)), RunStep::Done));
        assert_eq!(run.position(), 7);
    }
}

#[test]
fn generated_messages_match_the_messages_published() {
    let mut run = ScriptedRun::new(1, 2);
    let mut said = 0u32;
    let mut reported = None;
    let mut limit = None;
    loop {
        match run.next_step(st(1), st(2)) {
            RunStep::Publish(e) => match e.kind {
                ThreadEventKind::RunStarted { turn_limit, .. } => limit = Some(turn_limit),
                ThreadEventKind::MessageCreated { .. } => said += 1,
                ThreadEventKind::RunCompleted { generated_messages, .. } => reported = Some(generated_messages),
                ThreadEventKind::RunFailed { .. } => panic!("the script does not fail"),
            },
            RunStep::Pause(_) => {}
            RunStep::Done => break,
        }
    }
    assert_eq!(reported, Some(said));
    assert_eq!(limit, Some(said));
}

#[test]
fn start_run_reply_names_the_run() {
    let (reply, mut run) = start_run(33, 44);
    assert_eq!(reply.status, Status::Accepted);
    assert_eq!(reply.body.status, "started");
    assert_eq!(reply.body.thread_id, 33);
    assert_eq!(reply.body.run_id, 44);
    assert_eq!(run.position(), 0);
    match run.next_step(st(5), st(6)) {
        RunStep::Publish(e) => assert_eq!(e.kind, ThreadEventKind::RunStarted { run_id: 44, turn_limit: 2 }),
        other => panic!("unexpected {:?}", other),
    }
}
