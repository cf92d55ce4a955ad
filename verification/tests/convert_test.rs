use a2a_rs::convert::{
    from_proto_agent_card, from_proto_artifact, from_proto_message, from_proto_part,
    from_proto_task, from_proto_task_state, from_proto_task_status, to_proto_agent_card,
    to_proto_artifact, to_proto_message, to_proto_part, to_proto_task, to_proto_task_state,
    to_proto_task_status,
};
use a2a_rs::domain::{
    AgentCapabilities, AgentCardSignature, AgentExtension, AgentInterface, AgentProvider,
    AgentSkill, A2AError, AgentCard, Artifact, FileContent, Message, Part, Role, Task, TaskState, TaskStatus,
    UtcTimestamp,
};
use a2a_rs::proto;

fn text_part(text: &str) -> Part {
    Part::Text { text: text.to_string(), metadata: None }
}

fn message(parts: Vec<Part>) -> Message {
    Message {
        role: Role::User,
        parts,
        metadata: None,
        reference_task_ids: None,
        message_id: "msg-1".to_string(),
        task_id: None,
        context_id: None,
        extensions: None,
        kind: "message".to_string(),
    }
}

fn file_part(uri: Option<&str>, bytes: Option<&str>) -> Part {
    Part::File {
        file: FileContent {
            name: Some("receipt.png".to_string()),
            mime_type: Some("image/png".to_string()),
            bytes: bytes.map(|b| b.to_string()),
            uri: uri.map(|u| u.to_string()),
        },
        metadata: None,
    }
}

#[test]
fn test_task_state_conversions() {
    // Test all task state conversions
    let states = vec![
        (TaskState::Submitted, proto::TaskState::Submitted),
        (TaskState::Working, proto::TaskState::Working),
        (TaskState::Completed, proto::TaskState::Completed),
        (TaskState::Failed, proto::TaskState::Failed),
        (TaskState::Canceled, proto::TaskState::Cancelled),
        (TaskState::InputRequired, proto::TaskState::InputRequired),
        (TaskState::Rejected, proto::TaskState::Rejected),
        (TaskState::AuthRequired, proto::TaskState::AuthRequired),
        (TaskState::Unknown, proto::TaskState::Unspecified),
    ];

    for (domain_state, proto_state) in states {
        // Test domain -> proto
        let converted_proto = to_proto_task_state(&domain_state);
        assert_eq!(converted_proto as i32, proto_state as i32);

        // Test proto -> domain
        let converted_domain = from_proto_task_state(proto_state as i32).unwrap();
        assert_eq!(converted_domain, domain_state);
    }
}

#[test]
fn test_invalid_task_state() {
    // Test that invalid proto state converts to Unknown
    let result = from_proto_task_state(9999);
    assert!(result.is_ok());
    assert_eq!(result.unwrap(), TaskState::Unknown);
}

#[test]
fn wire_state_numbers_match_the_protocol() {
    assert_eq!(proto::TaskState::Unspecified.value(), 0);
    assert_eq!(proto::TaskState::Submitted.value(), 1);
    assert_eq!(proto::TaskState::Cancelled.value(), 5);
    assert_eq!(proto::TaskState::AuthRequired.value(), 8);
    assert_eq!(proto::TaskState::Cancelled.value(), proto::TaskState::Cancelled as i32);
    assert_eq!(proto::Role::User.value(), 1);
    assert_eq!(proto::Role::Agent.value(), 2);
    assert_eq!(proto::TaskState::from_value(7), Some(proto::TaskState::Rejected));
    assert_eq!(proto::TaskState::from_value(-1), None);
    assert_eq!(from_proto_task_state(0).unwrap(), TaskState::Unknown);
    assert_eq!(from_proto_task_state(-3).unwrap(), TaskState::Unknown);
}

#[test]
fn task_state_round_trip_law_on_every_state() {
    for v in 1..=8 {
        let s = from_proto_task_state(v).unwrap();
        assert_eq!(to_proto_task_state(&s).value(), v);
    }
}

#[test]
fn message_to_wire_fills_absent_fields_with_empty_values() {
    let mut m = message(vec![text_part("hello")]);
    m.role = Role::Agent;
    m.context_id = Some("ctx-1".to_string());
    let pm = to_proto_message(&m).unwrap();
    assert_eq!(pm.message_id, "msg-1");
    assert_eq!(pm.context_id, "ctx-1");
    assert_eq!(pm.task_id, "");
    assert_eq!(pm.role, 2);
    assert!(pm.extensions.is_empty());
    assert!(pm.reference_task_ids.is_empty());
    assert!(pm.metadata.is_none());
    assert_eq!(pm.parts.len(), 1);
    assert_eq!(pm.parts[0].part, Some(proto::PartContent::Text("hello".to_string())));
}

#[test]
fn message_from_wire_reads_empty_fields_as_absent() {
    let pm = proto::Message {
        message_id: "m-9".to_string(),
        context_id: String::new(),
        task_id: "task-7".to_string(),
        role: 0,
        parts: vec![proto::Part {
            part: Some(proto::PartContent::Text("hi".to_string())),
            metadata: None,
        }],
        metadata: None,
        extensions: vec!["ext-a".to_string()],
        reference_task_ids: vec![],
    };
    let m = from_proto_message(pm).unwrap();
    assert_eq!(m.role, Role::User);
    assert_eq!(m.context_id, None);
    assert_eq!(m.task_id, Some("task-7".to_string()));
    assert_eq!(m.extensions, Some(vec!["ext-a".to_string()]));
    assert_eq!(m.reference_task_ids, None);
    assert_eq!(m.kind, "message");
    assert_eq!(m.parts, vec![text_part("hi")]);
}

#[test]
fn message_round_trip_through_the_wire() {
    let mut m = message(vec![
        text_part("hello"),
        file_part(Some("https://example.com/r.png"), None),
        file_part(None, Some("aGVsbG8=")),
    ]);
    m.role = Role::Agent;
    m.task_id = Some("task-1".to_string());
    m.reference_task_ids = Some(vec!["task-0".to_string()]);
    let back = from_proto_message(to_proto_message(&m).unwrap()).unwrap();
    assert_eq!(back, m);
}

#[test]
fn file_part_bytes_are_decoded_for_the_wire() {
    let pp = to_proto_part(&file_part(None, Some("aGVsbG8="))).unwrap();
    match pp.part {
        Some(proto::PartContent::File(fp)) => {
            assert_eq!(fp.file, Some(proto::FileSource::FileWithBytes(b"hello".to_vec())));
            assert_eq!(fp.name, "receipt.png");
            assert_eq!(fp.media_type, "image/png");
        }
        other => panic!("unexpected part {:?}", other),
    }
}

#[test]
fn file_part_prefers_uri_over_bytes() {
    let pp = to_proto_part(&file_part(Some("file:///a"), Some("aGVsbG8="))).unwrap();
    match pp.part {
        Some(proto::PartContent::File(fp)) => {
            assert_eq!(fp.file, Some(proto::FileSource::FileWithUri("file:///a".to_string())));
        }
        other => panic!("unexpected part {:?}", other),
    }
}

#[test]
fn file_part_with_bad_base64_is_an_internal_error() {
    let r = to_proto_part(&file_part(None, Some("!!!!")));
    assert_eq!(
        r,
        Err(A2AError::Internal(
            "Failed to decode base64: Invalid symbol 33, offset 0.".to_string()
        ))
    );
}

#[test]
fn file_part_without_source_is_an_internal_error() {
    let r = to_proto_part(&file_part(None, None));
    assert_eq!(r, Err(A2AError::Internal("File must have either URI or bytes".to_string())));
    let r = to_proto_message(&message(vec![text_part("a"), file_part(None, None)]));
    assert_eq!(r, Err(A2AError::Internal("File must have either URI or bytes".to_string())));
}

#[test]
fn data_part_content_is_not_sent() {
    let mut data = serde_json::Map::new();
    data.insert("k".to_string(), serde_json::Value::from(1));
    let pp = to_proto_part(&Part::Data { data, metadata: None }).unwrap();
    assert_eq!(pp.part, Some(proto::PartContent::Data(proto::DataPart { data: None })));
    assert!(pp.metadata.is_none());
}

#[test]
fn wire_parts_are_read() {
    let bytes = proto::Part {
        part: Some(proto::PartContent::File(proto::FilePart {
            file: Some(proto::FileSource::FileWithBytes(b"hello".to_vec())),
            media_type: String::new(),
            name: "r.txt".to_string(),
        })),
        metadata: None,
    };
    assert_eq!(
        from_proto_part(bytes).unwrap(),
        Part::File {
            file: FileContent {
                name: Some("r.txt".to_string()),
                mime_type: None,
                bytes: Some("aGVsbG8=".to_string()),
                uri: None,
            },
            metadata: None,
        }
    );
    let data = proto::Part {
        part: Some(proto::PartContent::Data(proto::DataPart { data: None })),
        metadata: None,
    };
    match from_proto_part(data).unwrap() {
        Part::Data { data, metadata } => {
            assert!(data.is_empty());
            assert!(metadata.is_none());
        }
        other => panic!("unexpected part {:?}", other),
    }
}

#[test]
fn malformed_wire_parts_are_invalid_requests() {
    let empty = proto::Part { part: None, metadata: None };
    assert_eq!(
        from_proto_part(empty),
        Err(A2AError::InvalidRequest("Part must have content".to_string()))
    );
    let no_source = proto::Part {
        part: Some(proto::PartContent::File(proto::FilePart {
            file: None,
            media_type: String::new(),
            name: String::new(),
        })),
        metadata: None,
    };
    assert_eq!(
        from_proto_part(no_source),
        Err(A2AError::InvalidRequest("File part must have either URI or bytes".to_string()))
    );
}

fn sample_task() -> Task {
    Task {
        id: "task-1".to_string(),
        context_id: "ctx-1".to_string(),
        status: TaskStatus {
            state: TaskState::Canceled,
            message: Some(message(vec![text_part("bye")])),
            timestamp: Some(UtcTimestamp { seconds: 1_704_067_200, subsec_nanos: 5 }),
        },
        artifacts: Some(vec![Artifact {
            artifact_id: "art-1".to_string(),
            parts: vec![text_part("result")],
            metadata: None,
        }]),
        history: None,
        metadata: None,
        kind: "task".to_string(),
    }
}

#[test]
fn task_to_wire() {
    let pt = to_proto_task(&sample_task()).unwrap();
    assert_eq!(pt.id, "task-1");
    assert_eq!(pt.context_id, "ctx-1");
    let status = pt.status.unwrap();
    assert_eq!(status.state, 5);
    assert_eq!(status.timestamp, Some(proto::Timestamp { seconds: 1_704_067_200, nanos: 5 }));
    assert_eq!(status.message.unwrap().parts.len(), 1);
    assert_eq!(pt.artifacts.len(), 1);
    assert_eq!(pt.artifacts[0].artifact_id, "art-1");
    assert_eq!(pt.artifacts[0].name, "");
    assert_eq!(pt.artifacts[0].description, "");
    assert!(pt.artifacts[0].extensions.is_empty());
    assert!(pt.history.is_empty());
}

#[test]
fn task_status_error_comes_before_artifact_error() {
    let mut t = sample_task();
    t.status.message = Some(message(vec![file_part(None, Some("!!!!"))]));
    t.artifacts = Some(vec![Artifact {
        artifact_id: "a".to_string(),
        parts: vec![file_part(None, None)],
        metadata: None,
    }]);
    assert_eq!(
        to_proto_task(&t),
        Err(A2AError::Internal(
            "Failed to decode base64: Invalid symbol 33, offset 0.".to_string()
        ))
    );
    let s = to_proto_task_status(&t.status);
    assert!(matches!(s, Err(A2AError::Internal(_))));
}

#[test]
fn artifact_to_wire() {
    let a = Artifact { artifact_id: "x".to_string(), parts: vec![], metadata: None };
    let pa = to_proto_artifact(&a).unwrap();
    assert_eq!(pa.artifact_id, "x");
    assert!(pa.parts.is_empty());
}

#[test]
fn reading_tasks_from_the_wire_is_unsupported() {
    let unsupported = A2AError::UnsupportedOperation("Conversion not yet implemented".to_string());
    let pt = to_proto_task(&sample_task()).unwrap();
    assert_eq!(from_proto_task(pt.clone()), Err(unsupported.clone()));
    assert_eq!(from_proto_task_status(pt.status.clone().unwrap()), Err(unsupported.clone()));
    assert_eq!(from_proto_artifact(pt.artifacts[0].clone()), Err(unsupported.clone()));
}

fn plain_card() -> AgentCard {
    AgentCard {
        name: "Test Agent".to_string(),
        description: "An agent".to_string(),
        url: "https://api.example.com".to_string(),
        provider: None,
        version: "1.0.0".to_string(),
        documentation_url: None,
        capabilities: AgentCapabilities {
            streaming: false,
            push_notifications: false,
            state_transition_history: false,
            extensions: None,
        },
        default_input_modes: vec!["text".to_string()],
        default_output_modes: vec!["text".to_string(), "file".to_string()],
        skills: vec![],
        supports_authenticated_extended_card: Some(true),
        signatures: None,
        protocol_version: "0.3.0".to_string(),
        preferred_transport: None,
        additional_interfaces: None,
        icon_url: None,
    }
}

#[test]
fn agent_card_to_wire() {
    let card = plain_card();
    let pc = to_proto_agent_card(&card).unwrap();
    assert_eq!(pc.name, "Test Agent");
    assert_eq!(pc.url, Some("https://api.example.com".to_string()));
    assert_eq!(pc.protocol_version, Some("0.3.0".to_string()));
    assert_eq!(pc.preferred_transport, None);
    assert_eq!(pc.default_output_modes, vec!["text".to_string(), "file".to_string()]);
    assert_eq!(pc.supports_extended_agent_card, Some(true));
    assert_eq!(
        pc.capabilities,
        Some(proto::AgentCapabilities {
            streaming: Some(false),
            push_notifications: Some(false),
            extensions: vec![],
            state_transition_history: Some(false),
        })
    );
    assert!(pc.skills.is_empty());
    assert!(pc.additional_interfaces.is_empty());
    assert!(pc.signatures.is_empty());
    assert_eq!(
        from_proto_agent_card(pc),
        Err(A2AError::UnsupportedOperation("Conversion not yet implemented".to_string()))
    );
}

#[test]
fn agent_card_to_wire_carries_its_full_structure() {
    let mut card = plain_card();
    card.provider = Some(AgentProvider {
        organization: "Example Org".to_string(),
        url: "https://example.org".to_string(),
    });
    card.documentation_url = Some("https://docs.example.org".to_string());
    card.preferred_transport = Some("GRPC".to_string());
    card.additional_interfaces = Some(vec![AgentInterface {
        url: "https://api.example.com/rpc".to_string(),
        transport: "JSONRPC".to_string(),
    }]);
    card.capabilities = AgentCapabilities {
        streaming: true,
        push_notifications: true,
        state_transition_history: false,
        extensions: Some(vec![AgentExtension {
            uri: "https://example.org/ext".to_string(),
            description: None,
            required: Some(true),
        }]),
    };
    card.skills = vec![
        AgentSkill {
            id: "reimburse".to_string(),
            name: "Reimbursement".to_string(),
            description: "Handles expenses".to_string(),
            tags: vec!["expense".to_string()],
            examples: Some(vec!["Reimburse my lunch".to_string()]),
            input_modes: None,
            output_modes: Some(vec!["text".to_string()]),
        },
        AgentSkill {
            id: "status".to_string(),
            name: "Status".to_string(),
            description: "Reports status".to_string(),
            tags: vec![],
            examples: None,
            input_modes: None,
            output_modes: None,
        },
    ];
    card.signatures = Some(vec![AgentCardSignature {
        protected: "hdr".to_string(),
        signature: "sig".to_string(),
    }]);
    card.icon_url = Some("https://example.org/icon.png".to_string());
    let pc = to_proto_agent_card(&card).unwrap();
    assert_eq!(
        pc.provider,
        Some(proto::AgentProvider {
            url: "https://example.org".to_string(),
            organization: "Example Org".to_string(),
        })
    );
    assert_eq!(pc.documentation_url, Some("https://docs.example.org".to_string()));
    assert_eq!(pc.preferred_transport, Some("GRPC".to_string()));
    assert_eq!(
        pc.additional_interfaces,
        vec![proto::AgentInterface {
            url: "https://api.example.com/rpc".to_string(),
            transport: "JSONRPC".to_string(),
        }]
    );
    assert_eq!(
        pc.capabilities,
        Some(proto::AgentCapabilities {
            streaming: Some(true),
            push_notifications: Some(true),
            extensions: vec![proto::AgentExtension {
                uri: "https://example.org/ext".to_string(),
                description: String::new(),
                required: true,
            }],
            state_transition_history: Some(false),
        })
    );
    assert_eq!(pc.skills.len(), 2);
    assert_eq!(
        pc.skills[0],
        proto::AgentSkill {
            id: "reimburse".to_string(),
            name: "Reimbursement".to_string(),
            description: "Handles expenses".to_string(),
            tags: vec!["expense".to_string()],
            examples: vec!["Reimburse my lunch".to_string()],
            input_modes: vec![],
            output_modes: vec!["text".to_string()],
        }
    );
    assert_eq!(pc.skills[1].id, "status");
    assert!(pc.skills[1].examples.is_empty());
    assert_eq!(
        pc.signatures,
        vec![proto::AgentCardSignature { protected: "hdr".to_string(), signature: "sig".to_string() }]
    );
    assert_eq!(pc.icon_url, Some("https://example.org/icon.png".to_string()));
}

#[test]
fn wire_message_round_trip_through_the_domain() {
    let pm = proto::Message {
        message_id: "m-1".to_string(),
        context_id: "ctx".to_string(),
        task_id: String::new(),
        role: 2,
        parts: vec![
            proto::Part { part: Some(proto::PartContent::Text("t".to_string())), metadata: None },
            proto::Part {
                part: Some(proto::PartContent::File(proto::FilePart {
                    file: Some(proto::FileSource::FileWithBytes(vec![0, 1, 2, 250])),
                    media_type: String::new(),
                    name: "n".to_string(),
                })),
                metadata: None,
            },
            proto::Part { part: Some(proto::PartContent::Data(proto::DataPart { data: None })), metadata: None },
        ],
        metadata: None,
        extensions: vec![],
        reference_task_ids: vec!["r".to_string()],
    };
    let back = to_proto_message(&from_proto_message(pm.clone()).unwrap()).unwrap();
    assert_eq!(back, pm);
}

#[test]
fn clones_keep_opaque_contents() {
    let mut data = serde_json::Map::new();
    data.insert("k".to_string(), serde_json::Value::from("v"));
    let p = Part::Data { data, metadata: None };
    assert_eq!(p.clone(), p);
    let mut fields = std::collections::BTreeMap::new();
    fields.insert("x".to_string(), prost_types::Value { kind: None });
    let q = proto::Part {
        part: Some(proto::PartContent::Data(proto::DataPart {
            data: Some(prost_types::Struct { fields }),
        })),
        metadata: None,
    };
    assert_eq!(q.clone(), q);
}
