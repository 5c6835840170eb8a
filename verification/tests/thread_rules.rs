use api::reply::{ErrorReply, Status};
use api::stamp::Timestamp;
use api::threads::{created_thread, CreateAgentRequest, CreateThreadRequest, NewThread, ThreadRow};

fn request() -> CreateThreadRequest {
    CreateThreadRequest {
        title: "Spring".to_string(),
        agent_a: CreateAgentRequest { name: "Aki".to_string(), persona: "curious".to_string() },
        agent_b: CreateAgentRequest { name: "Haru".to_string(), persona: "calm".to_string() },
    }
}

#[test]
fn new_threads_start_idle() {
    let at = Timestamp { secs: 50, nanos: 0 };
    let t = NewThread::for_request(3, at, &request());
    assert_eq!(
        t,
        NewThread {
            id: 3,
            title: "Spring".to_string(),
            status: "idle".to_string(),
            agent_a_name: "Aki".to_string(),
            agent_a_persona: "curious".to_string(),
            agent_b_name: "Haru".to_string(),
            agent_b_persona: "calm".to_string(),
            created_at: at,
            updated_at: at,
        }
    );
}


#[test]
fn created_thread_reply_regroups_agents() {
    let stored = ThreadRow {
        id: 3,
        title: "Spring".to_string(),
        status: "idle".to_string(),
        agent_a_name: "Aki".to_string(),
        agent_a_persona: "curious".to_string(),
        agent_b_name: "Haru".to_string(),
        agent_b_persona: "calm".to_string(),
        created_at: Timestamp { secs: 50, nanos: 0 },
    };
    let reply = created_thread(Ok(stored)).unwrap();
    assert_eq!(reply.status, Status::Created);
    assert_eq!(reply.body.agent_a, request().agent_a);
    assert_eq!(reply.body.agent_b, request().agent_b);
    assert_eq!(reply.body.status, "idle");
    assert_eq!(reply.body.id, 3);
    assert_eq!(
        created_thread(Err("nope".to_string())),
        Err(ErrorReply { status: Status::InternalServerError, message: "nope".to_string() })
    );
}
