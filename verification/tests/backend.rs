use ora_task::backend::{
    Backend, ConfigurationError, JdbcBackend, SqlPlusBackend, StdBackend, Task, TaskBuilder,
    make_custom_task, make_task, obtain_config_credentials,
};
use ora_task::endpoint::{AuthType, Authentication, Endpoint, HostName, PointName, Port};

fn make_config_with_auth_type(auth_type: &str) -> Endpoint {
    let auth_kind = match auth_type {
        "kerberos" => AuthType::Kerberos,
        "os" => AuthType::Os,
        // The configuration layer falls back to the standard mode for any
        // other tag, "standard" included.
        _ => AuthType::Standard,
    };
    Endpoint {
        hostname: HostName {
            value: "localhost".to_string(), // a real host, to avoid a long timeout
        },
        point: PointName {
            value: "XE".to_string(),
        },
        port: Port {
            value: 65345, // a weird port, to avoid a connection
        },
        auth: Authentication {
            username: "bad_user".to_string(),
            password: Some("bad_password".to_string()),
            auth_type: auth_kind,
        },
    }
}

fn build_task_with_backend(backend: Backend) -> Task {
    TaskBuilder::new()
        .target(&make_config_with_auth_type("standard"))
        .backend(backend)
        .build()
        .unwrap()
}

#[test]
fn test_create_client_from_config_for_error() {
    let c = make_config_with_auth_type("bad");
    let task = make_task(&c);
    assert!(task.is_ok());
}

#[test]
fn test_create_client_from_config_correct() {
    let config = make_config_with_auth_type("standard");
    assert!(make_task(&config).is_ok());
}

#[test]
fn test_obtain_credentials_from_config() {
    assert!(obtain_config_credentials(&make_config_with_auth_type("os").auth).is_none());
    assert!(obtain_config_credentials(&make_config_with_auth_type("kerberos").auth).is_some());
    assert!(obtain_config_credentials(&make_config_with_auth_type("standard").auth).is_some());
}

#[test]
fn make_task_mirrors_endpoint() {
    let endpoint = make_config_with_auth_type("standard");
    let task = make_task(&endpoint).unwrap();
    let target = task.target();
    assert_eq!(target.host, endpoint.hostname);
    assert_eq!(target.point, endpoint.point);
    assert_eq!(target.port, endpoint.port);
    assert_eq!(target.auth, endpoint.auth);
    assert!(matches!(task.backend(), Backend::SqlPlus(_)));
    assert!(task.database().is_none());
}

#[test]
fn build_without_both_inputs_fails() {
    assert_eq!(
        TaskBuilder::new().build().unwrap_err(),
        ConfigurationError::BackendNotDefined
    );
    let endpoint = make_config_with_auth_type("standard");
    assert_eq!(
        TaskBuilder::new().target(&endpoint).build().unwrap_err(),
        ConfigurationError::BackendNotDefined
    );
    assert_eq!(
        TaskBuilder::new()
            .backend(Backend::Std(StdBackend {}))
            .build()
            .unwrap_err(),
        ConfigurationError::TargetAbsent
    );
    assert!(TaskBuilder::new()
        .target(&endpoint)
        .backend(Backend::Std(StdBackend {}))
        .build()
        .is_ok());
}

#[test]
fn build_keeps_database_name() {
    let endpoint = make_config_with_auth_type("standard");
    let task = TaskBuilder::new()
        .target(&endpoint)
        .backend(Backend::Std(StdBackend {}))
        .database(Some("FREEPDB1".to_string()))
        .build()
        .unwrap();
    assert_eq!(task.database(), Some(&"FREEPDB1".to_string()));
    let task = TaskBuilder::new()
        .target(&endpoint)
        .backend(Backend::Std(StdBackend {}))
        .database(None)
        .build()
        .unwrap();
    assert!(task.database().is_none());
}

#[test]
fn connect_dispatches_on_backend_variant() {
    assert!(build_task_with_backend(Backend::Std(StdBackend {}))
        .connect()
        .is_ok());
    let err = build_task_with_backend(Backend::SqlPlus(SqlPlusBackend {}))
        .connect()
        .unwrap_err();
    assert_eq!(err.message(), "backend is not implemented yet");
    assert!(build_task_with_backend(Backend::Jdbc(JdbcBackend {}))
        .connect()
        .is_err());
}

#[test]
fn credentials_follow_the_auth_mode() {
    let standard = obtain_config_credentials(&make_config_with_auth_type("standard").auth).unwrap();
    assert_eq!(standard.user, "bad_user");
    assert_eq!(standard.password, "bad_password");
    let kerberos = obtain_config_credentials(&make_config_with_auth_type("kerberos").auth).unwrap();
    assert_eq!(kerberos.user, "bad_user");
    assert_eq!(kerberos.password, "bad_password");
    assert!(obtain_config_credentials(&make_config_with_auth_type("os").auth).is_none());
}

#[test]
fn credentials_default_to_empty_password() {
    let auth = Authentication {
        username: "bad_user".to_string(),
        password: None,
        auth_type: AuthType::Kerberos,
    };
    let credentials = obtain_config_credentials(&auth).unwrap();
    assert_eq!(credentials.user, "bad_user");
    assert_eq!(credentials.password, "");
}

#[test]
fn custom_task_overrides_only_the_point() {
    let endpoint = make_config_with_auth_type("standard");
    let point = PointName {
        value: "custom_point".to_string(),
    };
    let custom = make_custom_task(&endpoint, &point).unwrap();
    let plain = make_task(&endpoint).unwrap();
    assert_eq!(custom.target().point.value, "custom_point");
    assert_eq!(custom.target().host, plain.target().host);
    assert_eq!(custom.target().port, plain.target().port);
    assert_eq!(custom.target().auth, plain.target().auth);
    assert!(matches!(custom.backend(), Backend::SqlPlus(_)));
}

#[test]
fn task_accessors_are_idempotent() {
    let task = TaskBuilder::new()
        .target(&make_config_with_auth_type("kerberos"))
        .backend(Backend::Std(StdBackend {}))
        .database(Some("XE".to_string()))
        .build()
        .unwrap();
    assert_eq!(task.target().host, task.target().host);
    assert_eq!(task.target().point, task.target().point);
    assert_eq!(task.target().port, task.target().port);
    assert_eq!(task.target().auth, task.target().auth);
    assert!(matches!(task.backend(), Backend::Std(_)));
    assert!(matches!(task.backend(), Backend::Std(_)));
    assert_eq!(task.database(), task.database());
    assert!(task.connect().is_ok());
    assert!(task.connect().is_ok());
}

#[test]
fn configuration_error_messages() {
    assert_eq!(
        ConfigurationError::TargetAbsent.message(),
        "Target is absent"
    );
    assert_eq!(
        ConfigurationError::BackendNotDefined.message(),
        "Backend not defined"
    );
}
