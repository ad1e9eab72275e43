use vultr_bridge::bridge::{prepare, resolve, translate, RemoteCall};
use vultr_bridge::catalog::{text_param, Operation, Param, ParamName};
use vultr_bridge::error::BridgeError;
use vultr_bridge::marshal::extract;
use vultr_bridge::request::{build_request, server_options, Request, ServerOptions, FIXED_OS_ID};
use vultr_bridge::value::{DynValue, NativeValue, PrimitiveKind};

fn text(s: &str) -> DynValue {
    DynValue::Text(s.to_string())
}

fn native(s: &str) -> NativeValue {
    NativeValue::Text(s.to_string())
}

const ALL_OPERATIONS: [Operation; 12] = [
    Operation::ListServers,
    Operation::CreateServer,
    Operation::DestroyServer,
    Operation::SetLabel,
    Operation::RebootServer,
    Operation::StartServer,
    Operation::UpgradePlan,
    Operation::ListUpgradeOptions,
    Operation::ListOperatingSystems,
    Operation::ListSnapshots,
    Operation::ListRegions,
    Operation::ListPlans,
];

#[test]
fn to_native_takes_text_as_text_only() {
    assert_eq!(text("abc").to_native(PrimitiveKind::Text), Some(native("abc")));
    assert_eq!(text("").to_native(PrimitiveKind::Text), Some(native("")));
    assert_eq!(text("true").to_native(PrimitiveKind::Boolean), None);
    assert_eq!(DynValue::Integer(7).to_native(PrimitiveKind::Text), None);
    assert_eq!(DynValue::Null.to_native(PrimitiveKind::Text), None);
    assert_eq!(DynValue::Undefined.to_native(PrimitiveKind::Text), None);
    assert_eq!(DynValue::Other.to_native(PrimitiveKind::Text), None);
}

#[test]
fn to_native_takes_boolean_as_boolean_only() {
    assert_eq!(
        DynValue::Boolean(true).to_native(PrimitiveKind::Boolean),
        Some(NativeValue::Boolean(true))
    );
    assert_eq!(
        DynValue::Boolean(false).to_native(PrimitiveKind::Boolean),
        Some(NativeValue::Boolean(false))
    );
    assert_eq!(DynValue::Boolean(true).to_native(PrimitiveKind::Text), None);
    assert_eq!(DynValue::Integer(1).to_native(PrimitiveKind::Boolean), None);
}

#[test]
fn parameter_names_in_words() {
    assert_eq!(ParamName::Filter.text(), "filter");
    assert_eq!(ParamName::DataCenterId.text(), "data-center id");
    assert_eq!(ParamName::PlanId.text(), "plan id");
    assert_eq!(ParamName::SnapshotId.text(), "snapshot id");
    assert_eq!(ParamName::Hostname.text(), "hostname");
    assert_eq!(ParamName::Label.text(), "label");
    assert_eq!(ParamName::Tag.text(), "tag");
    assert_eq!(ParamName::ServerId.text(), "server id");
    assert_eq!(ParamName::TargetPlanId.text(), "target plan id");
}

#[test]
fn signatures_of_the_catalog() {
    let req = |name| Param { name, kind: PrimitiveKind::Text, required: true };
    assert_eq!(
        Operation::ListServers.signature(),
        vec![Param { name: ParamName::Filter, kind: PrimitiveKind::Text, required: false }]
    );
    assert_eq!(
        Operation::CreateServer.signature(),
        vec![
            req(ParamName::DataCenterId),
            req(ParamName::PlanId),
            req(ParamName::SnapshotId),
            req(ParamName::Hostname),
            req(ParamName::Label),
            req(ParamName::Tag),
        ]
    );
    assert_eq!(Operation::DestroyServer.signature(), vec![req(ParamName::ServerId)]);
    assert_eq!(
        Operation::SetLabel.signature(),
        vec![req(ParamName::ServerId), req(ParamName::Label)]
    );
    assert_eq!(Operation::RebootServer.signature(), vec![req(ParamName::ServerId)]);
    assert_eq!(Operation::StartServer.signature(), vec![req(ParamName::ServerId)]);
    assert_eq!(
        Operation::UpgradePlan.signature(),
        vec![req(ParamName::ServerId), req(ParamName::TargetPlanId)]
    );
    assert_eq!(Operation::ListUpgradeOptions.signature(), vec![req(ParamName::ServerId)]);
    assert_eq!(Operation::ListOperatingSystems.signature(), vec![]);
    assert_eq!(Operation::ListSnapshots.signature(), vec![]);
    assert_eq!(Operation::ListRegions.signature(), vec![]);
    assert_eq!(Operation::ListPlans.signature(), vec![]);
    assert_eq!(text_param(ParamName::Tag), req(ParamName::Tag));
}

#[test]
fn extract_yields_one_value_for_each_parameter() {
    let sig = Operation::SetLabel.signature();
    let args = vec![text("srv1"), text("web")];
    assert_eq!(extract(&args, &sig), Ok(vec![native("srv1"), native("web")]));
}

#[test]
fn extract_marks_an_optional_parameter_without_argument_as_absent() {
    let sig = Operation::ListServers.signature();
    assert_eq!(extract(&vec![], &sig), Ok(vec![NativeValue::Absent]));
    assert_eq!(extract(&vec![text("srv")], &sig), Ok(vec![native("srv")]));
}

#[test]
fn extract_rejects_an_ill_typed_optional_argument() {
    let sig = Operation::ListServers.signature();
    assert_eq!(
        extract(&vec![DynValue::Undefined], &sig),
        Err(BridgeError::TypeMismatch { index: 0, expected: PrimitiveKind::Text })
    );
}

#[test]
fn extract_does_not_look_beyond_the_signature() {
    let sig = Operation::DestroyServer.signature();
    let args = vec![text("srv1"), DynValue::Integer(3), DynValue::Other];
    assert_eq!(extract(&args, &sig), Ok(vec![native("srv1")]));
    assert_eq!(extract(&vec![DynValue::Null], &vec![]), Ok(vec![]));
}

#[test]
fn extract_reports_the_first_fault_in_signature_order() {
    let sig = Operation::CreateServer.signature();
    let args = vec![text("ams1"), DynValue::Integer(1), DynValue::Null];
    assert_eq!(
        extract(&args, &sig),
        Err(BridgeError::TypeMismatch { index: 1, expected: PrimitiveKind::Text })
    );
    let args = vec![text("ams1"), text("vc2"), text("snap1")];
    assert_eq!(
        extract(&args, &sig),
        Err(BridgeError::MissingArgument { index: 3, name: ParamName::Hostname })
    );
}

#[test]
fn extract_handles_a_boolean_parameter() {
    let sig = vec![
        Param { name: ParamName::ServerId, kind: PrimitiveKind::Text, required: true },
        Param { name: ParamName::Tag, kind: PrimitiveKind::Boolean, required: false },
    ];
    assert_eq!(
        extract(&vec![text("a"), DynValue::Boolean(true)], &sig),
        Ok(vec![native("a"), NativeValue::Boolean(true)])
    );
    assert_eq!(extract(&vec![text("a")], &sig), Ok(vec![native("a"), NativeValue::Absent]));
    assert_eq!(
        extract(&vec![text("a"), text("true")], &sig),
        Err(BridgeError::TypeMismatch { index: 1, expected: PrimitiveKind::Boolean })
    );
}

#[test]
fn resolve_wants_a_text() {
    assert_eq!(resolve(Some(&text("KEY"))), Ok("KEY".to_string()));
    assert_eq!(resolve(Some(&text(""))), Ok(String::new()));
    assert_eq!(resolve(None), Err(BridgeError::MissingCredential));
    assert_eq!(resolve(Some(&DynValue::Integer(5))), Err(BridgeError::MissingCredential));
    assert_eq!(resolve(Some(&DynValue::Undefined)), Err(BridgeError::MissingCredential));
    assert_eq!(resolve(Some(&DynValue::Boolean(true))), Err(BridgeError::MissingCredential));
}

#[test]
fn build_request_for_each_operation() {
    let one = vec![native("srv1")];
    let two = vec![native("srv1"), native("x")];
    assert_eq!(
        build_request(Operation::ListServers, &vec![NativeValue::Absent]),
        Request::ListServers { filter: None }
    );
    assert_eq!(
        build_request(Operation::ListServers, &one),
        Request::ListServers { filter: Some("srv1".to_string()) }
    );
    assert_eq!(
        build_request(Operation::DestroyServer, &one),
        Request::DestroyServer { server_id: "srv1".to_string() }
    );
    assert_eq!(
        build_request(Operation::RebootServer, &one),
        Request::RebootServer { server_id: "srv1".to_string() }
    );
    assert_eq!(
        build_request(Operation::StartServer, &one),
        Request::StartServer { server_id: "srv1".to_string() }
    );
    assert_eq!(
        build_request(Operation::ListUpgradeOptions, &one),
        Request::ListUpgradeOptions { server_id: "srv1".to_string() }
    );
    assert_eq!(
        build_request(Operation::SetLabel, &two),
        Request::SetLabel { server_id: "srv1".to_string(), label: "x".to_string() }
    );
    assert_eq!(
        build_request(Operation::UpgradePlan, &two),
        Request::UpgradePlan { server_id: "srv1".to_string(), plan_id: "x".to_string() }
    );
    assert_eq!(build_request(Operation::ListOperatingSystems, &vec![]), Request::ListOperatingSystems);
    assert_eq!(build_request(Operation::ListSnapshots, &vec![]), Request::ListSnapshots);
    assert_eq!(build_request(Operation::ListRegions, &vec![]), Request::ListRegions);
    assert_eq!(build_request(Operation::ListPlans, &vec![]), Request::ListPlans);
}

#[test]
fn server_options_fix_the_system_and_the_private_network() {
    let values = vec![
        native("ams1"),
        native("vc2"),
        native("snap1"),
        native("host1"),
        native("label1"),
        native("tagA"),
    ];
    let expected = ServerOptions {
        dc_id: "ams1".to_string(),
        vps_plan_id: "vc2".to_string(),
        os_id: "164",
        snapshot_id: Some("snap1".to_string()),
        hostname: Some("host1".to_string()),
        label: Some("label1".to_string()),
        tag: Some("tagA".to_string()),
        enable_private_network: Some(true),
    };
    assert_eq!(FIXED_OS_ID, "164");
    assert_eq!(server_options(&values), expected);
    assert_eq!(
        build_request(Operation::CreateServer, &values),
        Request::CreateServer { options: expected }
    );
}

#[test]
fn an_empty_identifier_is_forwarded() {
    let key = text("KEY");
    assert_eq!(
        prepare(Operation::DestroyServer, Some(&key), &vec![text("")]),
        Ok(RemoteCall {
            credential: "KEY".to_string(),
            request: Request::DestroyServer { server_id: String::new() },
        })
    );
}

#[test]
fn prepare_with_exact_arguments_succeeds_for_every_operation() {
    let key = text("KEY");
    for op in ALL_OPERATIONS {
        let sig = op.signature();
        let args: Vec<DynValue> = sig.iter().map(|_| text("v")).collect();
        let call = prepare(op, Some(&key), &args).expect("a call is prepared");
        assert_eq!(call.credential, "KEY");
        let values: Vec<NativeValue> = sig.iter().map(|_| native("v")).collect();
        assert_eq!(call.request, build_request(op, &values));
    }
}

#[test]
fn prepare_reports_each_omitted_required_argument() {
    let key = text("KEY");
    for op in ALL_OPERATIONS {
        let sig = op.signature();
        for (i, param) in sig.iter().enumerate() {
            if !param.required {
                continue;
            }
            let args: Vec<DynValue> = (0..i).map(|_| text("v")).collect();
            assert_eq!(
                prepare(op, Some(&key), &args),
                Err(BridgeError::MissingArgument { index: i, name: param.name })
            );
        }
    }
}

#[test]
fn prepare_reports_a_wrong_type_at_each_position() {
    let key = text("KEY");
    let wrong = [
        DynValue::Undefined,
        DynValue::Null,
        DynValue::Boolean(true),
        DynValue::Integer(0),
        DynValue::Other,
    ];
    for op in ALL_OPERATIONS {
        let sig = op.signature();
        for i in 0..sig.len() {
            for bad in wrong.iter() {
                let mut args: Vec<DynValue> = sig.iter().map(|_| text("v")).collect();
                args[i] = bad.clone();
                assert_eq!(
                    prepare(op, Some(&key), &args),
                    Err(BridgeError::TypeMismatch { index: i, expected: PrimitiveKind::Text })
                );
            }
        }
    }
}

#[test]
fn prepare_reports_the_missing_credential_before_any_argument() {
    for op in ALL_OPERATIONS {
        let good: Vec<DynValue> = op.signature().iter().map(|_| text("v")).collect();
        assert_eq!(prepare(op, None, &good), Err(BridgeError::MissingCredential));
        assert_eq!(prepare(op, None, &vec![]), Err(BridgeError::MissingCredential));
        assert_eq!(
            prepare(op, Some(&DynValue::Integer(1)), &vec![DynValue::Null]),
            Err(BridgeError::MissingCredential)
        );
    }
}

#[test]
fn translate_keeps_payload_and_diagnostic() {
    let payload = vec![("id".to_string(), vec![1u64, 2, 3]), ("tags".to_string(), vec![])];
    assert_eq!(translate(Ok(payload.clone())), Ok(payload));
    assert_eq!(
        translate::<u8>(Err("connection refused".to_string())),
        Err(BridgeError::Remote { diagnostic: "connection refused".to_string() })
    );
    assert_eq!(translate::<u8>(Err(String::new())), Err(BridgeError::Remote { diagnostic: String::new() }));
}
