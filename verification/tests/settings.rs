use remote_connections::connection::{
    Connection, DevContainerConnection, DockerConnectionOptions, MockConnectionOptions,
    OptionsConversion, RemoteConnectionOptions, SshConnection, SshConnectionOptions,
    SshPortForwardOption, WslConnection, WslConnectionOptions,
};
use remote_connections::settings::{RemoteSettings, RemoteSettingsContent};

fn ssh(host: &str, username: Option<&str>, port: Option<u16>, nickname: &str) -> SshConnection {
    SshConnection {
        host: host.to_string(),
        username: username.map(|name| name.to_string()),
        port,
        nickname: Some(nickname.to_string()),
        upload_binary_over_ssh: Some(true),
        args: vec!["-v".to_string()],
        port_forwards: Some(vec![SshPortForwardOption {
            local_host: None,
            local_port: 8080,
            remote_host: Some("db".to_string()),
            remote_port: 5432,
        }]),
    }
}

fn settings(
    ssh_connections: Vec<SshConnection>,
) -> RemoteSettings<SshConnection, WslConnection> {
    RemoteSettings { ssh_connections, wsl_connections: Vec::new(), read_ssh_config: true }
}

#[test]
fn the_first_connection_that_leads_there_is_filled_in() {
    let settings = settings(vec![
        ssh("other", Some("me"), Some(22), "other"),
        ssh("host", Some("me"), None, "no port"),
        ssh("host", None, Some(22), "no user"),
        ssh("host", Some("me"), Some(22), "first"),
        ssh("host", Some("me"), Some(22), "second"),
    ]);
    let options =
        settings.connection_options_for("host".to_string(), Some(22), Some("me".to_string()));
    assert_eq!(
        options,
        SshConnectionOptions {
            host: "host".to_string(),
            username: Some("me".to_string()),
            port: Some(22),
            password: None,
            nickname: Some("first".to_string()),
            upload_binary_over_ssh: true,
            args: Some(vec!["-v".to_string()]),
            port_forwards: settings.ssh_connections[3].port_forwards.clone(),
        }
    );
}

#[test]
fn options_stay_where_no_connection_leads_there() {
    let settings = settings(vec![ssh("host", Some("me"), Some(22), "nick")]);
    let options = settings.connection_options_for("host".to_string(), Some(2222), None);
    assert_eq!(
        options,
        SshConnectionOptions {
            host: "host".to_string(),
            port: Some(2222),
            ..SshConnectionOptions::default()
        }
    );
    assert_eq!(options.args, None);
    assert!(!options.upload_binary_over_ssh);
}

#[test]
fn filling_overwrites_and_keeps_the_password() {
    let mut connection = ssh("host", None, None, "nick");
    connection.nickname = None;
    connection.upload_binary_over_ssh = None;
    connection.args = Vec::new();
    connection.port_forwards = None;
    let settings = settings(vec![connection]);
    let mut options = SshConnectionOptions {
        host: "host".to_string(),
        password: Some("secret".to_string()),
        nickname: Some("old".to_string()),
        upload_binary_over_ssh: true,
        ..SshConnectionOptions::default()
    };
    settings.fill_connection_options_from_settings(&mut options);
    let expected = SshConnectionOptions {
        host: "host".to_string(),
        password: Some("secret".to_string()),
        args: Some(Vec::new()),
        ..SshConnectionOptions::default()
    };
    assert_eq!(options, expected);
    settings.fill_connection_options_from_settings(&mut options);
    assert_eq!(options, expected);
}

#[test]
fn lists_that_are_left_out_are_empty() {
    let wsl_connections =
        vec![WslConnection { distro_name: "Ubuntu".to_string(), user: Some("me".to_string()) }];
    let content: RemoteSettingsContent<SshConnection, WslConnection> = RemoteSettingsContent {
        ssh_connections: None,
        wsl_connections: Some(wsl_connections.clone()),
        read_ssh_config: Some(false),
    };
    let settings = RemoteSettings::from_settings(content);
    assert!(settings.ssh_connections().is_empty());
    assert_eq!(settings.wsl_connections(), wsl_connections);
    assert!(!settings.read_ssh_config);
}

#[test]
fn connections_are_handed_out_in_order() {
    let ssh_connections = vec![ssh("a", None, None, "a"), ssh("b", None, Some(22), "b")];
    let content: RemoteSettingsContent<SshConnection, WslConnection> = RemoteSettingsContent {
        ssh_connections: Some(ssh_connections.clone()),
        wsl_connections: None,
        read_ssh_config: Some(true),
    };
    let settings = RemoteSettings::from_settings(content);
    assert_eq!(settings.ssh_connections(), ssh_connections);
    assert!(settings.wsl_connections().is_empty());
    assert!(settings.read_ssh_config);
}

#[test]
fn a_container_becomes_docker_options() {
    let connection = Connection::DevContainer(DevContainerConnection {
        name: "name".to_string(),
        remote_user: "user".to_string(),
        container_id: "id".to_string(),
        use_podman: true,
        remote_env: vec![("KEY".to_string(), "value".to_string())],
    });
    match connection.into_options() {
        OptionsConversion::Ready(options) => assert_eq!(
            options,
            RemoteConnectionOptions::Docker(DockerConnectionOptions {
                name: "name".to_string(),
                container_id: "id".to_string(),
                remote_user: "user".to_string(),
                upload_binary_over_docker_exec: false,
                use_podman: true,
                remote_env: vec![("KEY".to_string(), "value".to_string())],
            })
        ),
        _ => panic!("the options should be ready"),
    }
}

#[test]
fn other_connections_are_converted_as_they_are() {
    let connection = ssh("host", None, None, "nick");
    match Connection::from(connection.clone()).into_options() {
        OptionsConversion::Ssh(converted) => assert_eq!(converted, connection),
        _ => panic!("an SSH connection has SSH options"),
    }
    let connection = WslConnection { distro_name: "Ubuntu".to_string(), user: None };
    match Connection::from(connection.clone()).into_options() {
        OptionsConversion::Wsl(converted) => assert_eq!(converted, connection),
        _ => panic!("a WSL connection has WSL options"),
    }
}

#[test]
fn failures_name_the_kind_of_connection() {
    let ssh = RemoteConnectionOptions::Ssh(SshConnectionOptions::default());
    let wsl = RemoteConnectionOptions::Wsl(WslConnectionOptions {
        distro_name: "Ubuntu".to_string(),
        user: None,
    });
    let docker = RemoteConnectionOptions::Docker(DockerConnectionOptions {
        name: String::new(),
        container_id: String::new(),
        remote_user: String::new(),
        upload_binary_over_docker_exec: false,
        use_podman: false,
        remote_env: Vec::new(),
    });
    let mock = RemoteConnectionOptions::Mock(MockConnectionOptions { id: 1 });
    assert_eq!(ssh.failure_message(), "Failed to connect over SSH");
    assert_eq!(wsl.failure_message(), "Failed to connect to WSL");
    assert_eq!(docker.failure_message(), "Failed to connect to Dev Container");
    assert_eq!(mock.failure_message(), "Failed to connect to mock server");
}

#[test]
fn only_ssh_has_a_password() {
    let ssh = RemoteConnectionOptions::Ssh(SshConnectionOptions {
        password: Some("secret".to_string()),
        ..SshConnectionOptions::default()
    });
    assert_eq!(ssh.password(), Some(&"secret".to_string()));
    let mock = RemoteConnectionOptions::Mock(MockConnectionOptions { id: 1 });
    assert_eq!(mock.password(), None);
}

#[test]
fn options_are_cloned_whole() {
    let env = vec![("KEY".to_string(), "value".to_string()), ("B".to_string(), String::new())];
    let all = vec![
        RemoteConnectionOptions::Ssh(SshConnectionOptions {
            host: "host".to_string(),
            username: Some("me".to_string()),
            port: Some(22),
            password: Some("secret".to_string()),
            nickname: Some("nick".to_string()),
            upload_binary_over_ssh: true,
            args: Some(vec!["-v".to_string()]),
            port_forwards: ssh("host", None, None, "nick").port_forwards,
        }),
        RemoteConnectionOptions::Wsl(WslConnectionOptions {
            distro_name: "Ubuntu".to_string(),
            user: Some("me".to_string()),
        }),
        RemoteConnectionOptions::Docker(DockerConnectionOptions {
            name: "name".to_string(),
            container_id: "id".to_string(),
            remote_user: "user".to_string(),
            upload_binary_over_docker_exec: true,
            use_podman: true,
            remote_env: env,
        }),
        RemoteConnectionOptions::Mock(MockConnectionOptions { id: 3 }),
    ];
    for options in &all {
        assert_eq!(options.clone(), *options);
    }
}
