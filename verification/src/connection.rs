//! Connections to remote machines, as they are configured and as they are made.

use vstd::prelude::*;
use vstd::std_specs::convert::FromSpecImpl;

verus! {

/// A port that is forwarded over an SSH connection.
#[derive(Debug, PartialEq, Eq)]
pub struct SshPortForwardOption {
    pub local_host: Option<String>,
    pub local_port: u16,
    pub remote_host: Option<String>,
    pub remote_port: u16,
}

/// What an [`SshPortForwardOption`] is.
pub struct PortForwardModel {
    pub local_host: Option<Seq<char>>,
    pub local_port: u16,
    pub remote_host: Option<Seq<char>>,
    pub remote_port: u16,
}

impl DeepView for SshPortForwardOption {
    type V = PortForwardModel;

    open spec fn deep_view(&self) -> PortForwardModel {
        PortForwardModel {
            local_host: self.local_host.deep_view(),
            local_port: self.local_port,
            remote_host: self.remote_host.deep_view(),
            remote_port: self.remote_port,
        }
    }
}

impl Clone for SshPortForwardOption {
    fn clone(&self) -> (forward: Self)
        ensures
            forward.deep_view() == self.deep_view(),
    {
        SshPortForwardOption {
            local_host: self.local_host.clone(),
            local_port: self.local_port,
            remote_host: self.remote_host.clone(),
            remote_port: self.remote_port,
        }
    }
}

/// An SSH connection, as it stands in the settings.
#[derive(Debug, PartialEq, Eq)]
pub struct SshConnection {
    pub host: String,
    pub username: Option<String>,
    pub port: Option<u16>,
    pub nickname: Option<String>,
    pub upload_binary_over_ssh: Option<bool>,
    pub args: Vec<String>,
    pub port_forwards: Option<Vec<SshPortForwardOption>>,
}

/// What an [`SshConnection`] is.
pub struct SshConnectionModel {
    pub host: Seq<char>,
    pub username: Option<Seq<char>>,
    pub port: Option<u16>,
    pub nickname: Option<Seq<char>>,
    pub upload_binary_over_ssh: Option<bool>,
    pub args: Seq<Seq<char>>,
    pub port_forwards: Option<Seq<PortForwardModel>>,
}

impl DeepView for SshConnection {
    type V = SshConnectionModel;

    open spec fn deep_view(&self) -> SshConnectionModel {
        SshConnectionModel {
            host: self.host@,
            username: self.username.deep_view(),
            port: self.port,
            nickname: self.nickname.deep_view(),
            upload_binary_over_ssh: self.upload_binary_over_ssh,
            args: self.args.deep_view(),
            port_forwards: self.port_forwards.deep_view(),
        }
    }
}

pub(crate) fn clone_texts(texts: &Vec<String>) -> (copy: Vec<String>)
    ensures
        copy.deep_view() == texts.deep_view(),
{
    let copy = texts.clone();
    assert(copy.deep_view() =~= texts.deep_view());
    copy
}

pub(crate) fn clone_forwards(forwards: &Option<Vec<SshPortForwardOption>>) -> (copy: Option<
    Vec<SshPortForwardOption>,
>)
    ensures
        copy.deep_view() == forwards.deep_view(),
{
    match forwards {
        Some(forwards) => {
            let copy = forwards.clone();
            assert(copy.deep_view() =~= forwards.deep_view());
            Some(copy)
        },
        None => None,
    }
}

impl Clone for SshConnection {
    fn clone(&self) -> (connection: Self)
        ensures
            connection.deep_view() == self.deep_view(),
    {
        SshConnection {
            host: self.host.clone(),
            username: self.username.clone(),
            port: self.port,
            nickname: self.nickname.clone(),
            upload_binary_over_ssh: self.upload_binary_over_ssh,
            args: clone_texts(&self.args),
            port_forwards: clone_forwards(&self.port_forwards),
        }
    }
}

/// A connection to a distribution of the Windows Subsystem for Linux, as it stands in the settings.
#[derive(Debug, PartialEq, Eq)]
pub struct WslConnection {
    pub distro_name: String,
    pub user: Option<String>,
}

/// What a [`WslConnection`] is.
pub struct WslConnectionModel {
    pub distro_name: Seq<char>,
    pub user: Option<Seq<char>>,
}

impl DeepView for WslConnection {
    type V = WslConnectionModel;

    open spec fn deep_view(&self) -> WslConnectionModel {
        WslConnectionModel { distro_name: self.distro_name@, user: self.user.deep_view() }
    }
}

impl Clone for WslConnection {
    fn clone(&self) -> (connection: Self)
        ensures
            connection.deep_view() == self.deep_view(),
    {
        WslConnection { distro_name: self.distro_name.clone(), user: self.user.clone() }
    }
}

/// A connection to a development container.
#[derive(Clone, Debug, PartialEq, Eq)]
pub struct DevContainerConnection {
    pub name: String,
    pub remote_user: String,
    pub container_id: String,
    pub use_podman: bool,
    pub remote_env: Vec<(String, String)>,
}

/// A connection to a remote machine.
#[derive(Clone, Debug, PartialEq, Eq)]
pub enum Connection {
    Ssh(SshConnection),
    Wsl(WslConnection),
    DevContainer(DevContainerConnection),
}

impl From<SshConnection> for Connection {
    fn from(val: SshConnection) -> (connection: Self) {
        Connection::Ssh(val)
    }
}

impl FromSpecImpl<SshConnection> for Connection {
    open spec fn obeys_from_spec() -> bool {
        true
    }

    open spec fn from_spec(val: SshConnection) -> Connection {
        Connection::Ssh(val)
    }
}

impl From<WslConnection> for Connection {
    fn from(val: WslConnection) -> (connection: Self) {
        Connection::Wsl(val)
    }
}

impl FromSpecImpl<WslConnection> for Connection {
    open spec fn obeys_from_spec() -> bool {
        true
    }

    open spec fn from_spec(val: WslConnection) -> Connection {
        Connection::Wsl(val)
    }
}

/// How to make an SSH connection.
#[derive(Debug, PartialEq, Eq)]
pub struct SshConnectionOptions {
    /// The host, as it is printed.
    pub host: String,
    pub username: Option<String>,
    pub port: Option<u16>,
    pub password: Option<String>,
    pub nickname: Option<String>,
    pub upload_binary_over_ssh: bool,
    pub args: Option<Vec<String>>,
    pub port_forwards: Option<Vec<SshPortForwardOption>>,
}

/// What [`SshConnectionOptions`] are.
pub struct SshOptionsModel {
    pub host: Seq<char>,
    pub username: Option<Seq<char>>,
    pub port: Option<u16>,
    pub password: Option<Seq<char>>,
    pub nickname: Option<Seq<char>>,
    pub upload_binary_over_ssh: bool,
    pub args: Option<Seq<Seq<char>>>,
    pub port_forwards: Option<Seq<PortForwardModel>>,
}

impl DeepView for SshConnectionOptions {
    type V = SshOptionsModel;

    open spec fn deep_view(&self) -> SshOptionsModel {
        SshOptionsModel {
            host: self.host@,
            username: self.username.deep_view(),
            port: self.port,
            password: self.password.deep_view(),
            nickname: self.nickname.deep_view(),
            upload_binary_over_ssh: self.upload_binary_over_ssh,
            args: self.args.deep_view(),
            port_forwards: self.port_forwards.deep_view(),
        }
    }
}

/// Options that say nothing of how to connect to a host.
pub open spec fn plain_ssh_options(
    host: Seq<char>,
    port: Option<u16>,
    username: Option<Seq<char>>,
) -> SshOptionsModel {
    SshOptionsModel {
        host,
        username,
        port,
        password: None,
        nickname: None,
        upload_binary_over_ssh: false,
        args: None,
        port_forwards: None,
    }
}

impl Default for SshConnectionOptions {
    fn default() -> (options: Self)
        ensures
            options.deep_view() == plain_ssh_options(Seq::empty(), None, None),
    {
        SshConnectionOptions {
            host: String::new(),
            username: None,
            port: None,
            password: None,
            nickname: None,
            upload_binary_over_ssh: false,
            args: None,
            port_forwards: None,
        }
    }
}

impl Clone for SshConnectionOptions {
    fn clone(&self) -> (options: Self)
        ensures
            options.deep_view() == self.deep_view(),
    {
        SshConnectionOptions {
            host: self.host.clone(),
            username: self.username.clone(),
            port: self.port,
            password: self.password.clone(),
            nickname: self.nickname.clone(),
            upload_binary_over_ssh: self.upload_binary_over_ssh,
            args: match &self.args {
                Some(args) => Some(clone_texts(args)),
                None => None,
            },
            port_forwards: clone_forwards(&self.port_forwards),
        }
    }
}

/// How to connect to a distribution of the Windows Subsystem for Linux.
#[derive(Debug, PartialEq, Eq)]
pub struct WslConnectionOptions {
    pub distro_name: String,
    pub user: Option<String>,
}

/// What [`WslConnectionOptions`] are.
pub struct WslOptionsModel {
    pub distro_name: Seq<char>,
    pub user: Option<Seq<char>>,
}

impl DeepView for WslConnectionOptions {
    type V = WslOptionsModel;

    open spec fn deep_view(&self) -> WslOptionsModel {
        WslOptionsModel { distro_name: self.distro_name@, user: self.user.deep_view() }
    }
}

impl Clone for WslConnectionOptions {
    fn clone(&self) -> (options: Self)
        ensures
            options.deep_view() == self.deep_view(),
    {
        WslConnectionOptions { distro_name: self.distro_name.clone(), user: self.user.clone() }
    }
}

/// How to connect to a development container.
#[derive(Debug, PartialEq, Eq)]
pub struct DockerConnectionOptions {
    pub name: String,
    pub container_id: String,
    pub remote_user: String,
    pub upload_binary_over_docker_exec: bool,
    pub use_podman: bool,
    pub remote_env: Vec<(String, String)>,
}

/// What [`DockerConnectionOptions`] are.
pub struct DockerOptionsModel {
    pub name: Seq<char>,
    pub container_id: Seq<char>,
    pub remote_user: Seq<char>,
    pub upload_binary_over_docker_exec: bool,
    pub use_podman: bool,
    pub remote_env: Seq<(Seq<char>, Seq<char>)>,
}

impl DeepView for DockerConnectionOptions {
    type V = DockerOptionsModel;

    open spec fn deep_view(&self) -> DockerOptionsModel {
        DockerOptionsModel {
            name: self.name@,
            container_id: self.container_id@,
            remote_user: self.remote_user@,
            upload_binary_over_docker_exec: self.upload_binary_over_docker_exec,
            use_podman: self.use_podman,
            remote_env: self.remote_env.deep_view(),
        }
    }
}

fn clone_env(env: &Vec<(String, String)>) -> (copy: Vec<(String, String)>)
    ensures
        copy.deep_view() == env.deep_view(),
{
    let mut copy: Vec<(String, String)> = Vec::new();
    while copy.len() < env.len()
        invariant
            copy@.len() <= env@.len(),
            copy.deep_view() == env.deep_view().take(copy@.len() as int),
        decreases env@.len() - copy@.len(),
    {
        let i: usize = copy.len();
        let ghost before = copy.deep_view();
        let (key, value) = &env[i];
        copy.push((key.clone(), value.clone()));
        assert(copy.deep_view() =~= before.push(env.deep_view()[i as int]));
        assert(copy.deep_view() =~= env.deep_view().take(i + 1));
    }
    assert(copy.deep_view() =~= env.deep_view());
    copy
}

impl Clone for DockerConnectionOptions {
    fn clone(&self) -> (options: Self)
        ensures
            options.deep_view() == self.deep_view(),
    {
        DockerConnectionOptions {
            name: self.name.clone(),
            container_id: self.container_id.clone(),
            remote_user: self.remote_user.clone(),
            upload_binary_over_docker_exec: self.upload_binary_over_docker_exec,
            use_podman: self.use_podman,
            remote_env: clone_env(&self.remote_env),
        }
    }
}

/// How to connect to a server that only exists for a test.
#[derive(Clone, Copy, Debug, PartialEq, Eq, Structural)]
pub struct MockConnectionOptions {
    pub id: u64,
}

/// How to connect to a remote machine.
#[derive(Debug, PartialEq, Eq)]
pub enum RemoteConnectionOptions {
    Ssh(SshConnectionOptions),
    Wsl(WslConnectionOptions),
    Docker(DockerConnectionOptions),
    Mock(MockConnectionOptions),
}

/// What [`RemoteConnectionOptions`] are.
pub enum RemoteOptionsModel {
    Ssh(SshOptionsModel),
    Wsl(WslOptionsModel),
    Docker(DockerOptionsModel),
    Mock(MockConnectionOptions),
}

impl DeepView for RemoteConnectionOptions {
    type V = RemoteOptionsModel;

    open spec fn deep_view(&self) -> RemoteOptionsModel {
        match *self {
            RemoteConnectionOptions::Ssh(options) => RemoteOptionsModel::Ssh(options.deep_view()),
            RemoteConnectionOptions::Wsl(options) => RemoteOptionsModel::Wsl(options.deep_view()),
            RemoteConnectionOptions::Docker(options) => RemoteOptionsModel::Docker(
                options.deep_view(),
            ),
            RemoteConnectionOptions::Mock(options) => RemoteOptionsModel::Mock(options),
        }
    }
}

impl Clone for RemoteConnectionOptions {
    fn clone(&self) -> (options: Self)
        ensures
            options.deep_view() == self.deep_view(),
    {
        match self {
            RemoteConnectionOptions::Ssh(options) => RemoteConnectionOptions::Ssh(options.clone()),
            RemoteConnectionOptions::Wsl(options) => RemoteConnectionOptions::Wsl(options.clone()),
            RemoteConnectionOptions::Docker(options) => RemoteConnectionOptions::Docker(
                options.clone(),
            ),
            RemoteConnectionOptions::Mock(options) => RemoteConnectionOptions::Mock(*options),
        }
    }
}

/// How the options for a connection come about.
pub enum OptionsConversion {
    /// As SSH options, by the conversion that belongs to them.
    Ssh(SshConnection),
    /// As WSL options, by the conversion that belongs to them.
    Wsl(WslConnection),
    /// They are these.
    Ready(RemoteConnectionOptions),
}

impl Connection {
    /// The options for the connection.
    pub fn into_options(self) -> (conversion: OptionsConversion)
        ensures
            conversion == (match self {
                Connection::Ssh(connection) => OptionsConversion::Ssh(connection),
                Connection::Wsl(connection) => OptionsConversion::Wsl(connection),
                Connection::DevContainer(connection) => OptionsConversion::Ready(
                    RemoteConnectionOptions::Docker(
                        DockerConnectionOptions {
                            name: connection.name,
                            container_id: connection.container_id,
                            remote_user: connection.remote_user,
                            upload_binary_over_docker_exec: false,
                            use_podman: connection.use_podman,
                            remote_env: connection.remote_env,
                        },
                    ),
                ),
            }),
    {
        match self {
            Connection::Ssh(connection) => OptionsConversion::Ssh(connection),
            Connection::Wsl(connection) => OptionsConversion::Wsl(connection),
            Connection::DevContainer(connection) => OptionsConversion::Ready(
                RemoteConnectionOptions::Docker(
                    DockerConnectionOptions {
                        name: connection.name,
                        container_id: connection.container_id,
                        remote_user: connection.remote_user,
                        upload_binary_over_docker_exec: false,
                        use_podman: connection.use_podman,
                        remote_env: connection.remote_env,
                    },
                ),
            ),
        }
    }
}

impl RemoteOptionsModel {
    /// The message that is shown when the connection fails.
    pub open spec fn failure(self) -> Seq<char> {
        match self {
            RemoteOptionsModel::Ssh(_) => "Failed to connect over SSH"@,
            RemoteOptionsModel::Wsl(_) => "Failed to connect to WSL"@,
            RemoteOptionsModel::Docker(_) => "Failed to connect to Dev Container"@,
            RemoteOptionsModel::Mock(_) => "Failed to connect to mock server"@,
        }
    }

    /// The password that is known for the connection. Only an SSH connection has one.
    pub open spec fn known_password(self) -> Option<Seq<char>> {
        match self {
            RemoteOptionsModel::Ssh(options) => options.password,
            _ => None,
        }
    }
}

impl RemoteConnectionOptions {
    /// The message that is shown when the connection fails.
    pub fn failure_message(&self) -> (message: &'static str)
        ensures
            message@ == self.deep_view().failure(),
    {
        match self {
            RemoteConnectionOptions::Ssh(_) => "Failed to connect over SSH",
            RemoteConnectionOptions::Wsl(_) => "Failed to connect to WSL",
            RemoteConnectionOptions::Docker(_) => "Failed to connect to Dev Container",
            RemoteConnectionOptions::Mock(_) => "Failed to connect to mock server",
        }
    }

    /// The password that is known for the connection.
    pub fn password(&self) -> (password: Option<&String>)
        ensures
            password.deep_view() == self.deep_view().known_password(),
    {
        match self {
            RemoteConnectionOptions::Ssh(options) => options.password.as_ref(),
            _ => None,
        }
    }
}

/// A failure is announced by what was to be connected to.
pub proof fn law_a_failure_names_what_was_connected_to(options: RemoteOptionsModel)
    ensures
        options is Ssh ==> options.failure() == "Failed to connect over SSH"@,
        options is Wsl ==> options.failure() == "Failed to connect to WSL"@,
        options is Docker ==> options.failure() == "Failed to connect to Dev Container"@,
        options is Mock ==> options.failure() == "Failed to connect to mock server"@,
{
}

/// The password that is known is that of an SSH connection; no other connection has one.
pub proof fn law_only_ssh_has_a_password(options: RemoteOptionsModel)
    ensures
        options matches RemoteOptionsModel::Ssh(ssh) ==> options.known_password() == ssh.password,
        options !is Ssh ==> options.known_password() is None,
{
}

/// A connection becomes options of its own kind. What is known of a development container is taken
/// over whole, and its binary is not uploaded.
pub proof fn law_options_are_of_the_kind_of_the_connection(
    connection: Connection,
    conversion: OptionsConversion,
)
    requires
        call_ensures(Connection::into_options, (connection,), conversion),
    ensures
        connection matches Connection::Ssh(ssh) ==> conversion == OptionsConversion::Ssh(ssh),
        connection matches Connection::Wsl(wsl) ==> conversion == OptionsConversion::Wsl(wsl),
        connection matches Connection::DevContainer(container) ==> (
        conversion matches OptionsConversion::Ready(RemoteConnectionOptions::Docker(options))
            && options.name == container.name && options.container_id == container.container_id
            && options.remote_user == container.remote_user && options.use_podman
            == container.use_podman && options.remote_env == container.remote_env
            && !options.upload_binary_over_docker_exec),
{
}

/// A connection in the settings is a connection of its own kind.
pub proof fn law_connections_are_of_their_kind(
    ssh: SshConnection,
    from_ssh: Connection,
    wsl: WslConnection,
    from_wsl: Connection,
)
    requires
        call_ensures(<Connection as From<SshConnection>>::from, (ssh,), from_ssh),
        call_ensures(<Connection as From<WslConnection>>::from, (wsl,), from_wsl),
    ensures
        from_ssh == Connection::Ssh(ssh),
        from_wsl == Connection::Wsl(wsl),
{
}

/// Options with the same model say the same, so that nothing is lost in a copy.
pub proof fn law_models_of_options_tell_them_apart(
    a: RemoteConnectionOptions,
    b: RemoteConnectionOptions,
)
    requires
        a.deep_view() == b.deep_view(),
    ensures
        match (a, b) {
            (RemoteConnectionOptions::Ssh(a), RemoteConnectionOptions::Ssh(b)) => {
                &&& a.host@ == b.host@
                &&& a.username.deep_view() == b.username.deep_view()
                &&& a.port == b.port
                &&& a.password.deep_view() == b.password.deep_view()
                &&& a.nickname.deep_view() == b.nickname.deep_view()
                &&& a.upload_binary_over_ssh == b.upload_binary_over_ssh
                &&& a.args.deep_view() == b.args.deep_view()
                &&& a.port_forwards.deep_view() == b.port_forwards.deep_view()
            },
            (RemoteConnectionOptions::Wsl(a), RemoteConnectionOptions::Wsl(b)) => {
                &&& a.distro_name@ == b.distro_name@
                &&& a.user.deep_view() == b.user.deep_view()
            },
            (RemoteConnectionOptions::Docker(a), RemoteConnectionOptions::Docker(b)) => {
                &&& a.name@ == b.name@
                &&& a.container_id@ == b.container_id@
                &&& a.remote_user@ == b.remote_user@
                &&& a.upload_binary_over_docker_exec == b.upload_binary_over_docker_exec
                &&& a.use_podman == b.use_podman
                &&& a.remote_env.deep_view() == b.remote_env.deep_view()
            },
            (RemoteConnectionOptions::Mock(a), RemoteConnectionOptions::Mock(b)) => a.id == b.id,
            _ => false,
        },
{
}

/// SSH options and connections are modelled by what they say.
pub proof fn law_models_of_ssh_say_the_same(
    options: SshConnectionOptions,
    connection: SshConnection,
    forward: SshPortForwardOption,
    wsl: WslConnection,
)
    ensures
        options.deep_view().host == options.host@,
        options.deep_view().username == options.username.deep_view(),
        options.deep_view().port == options.port,
        options.deep_view().password == options.password.deep_view(),
        options.deep_view().nickname == options.nickname.deep_view(),
        options.deep_view().upload_binary_over_ssh == options.upload_binary_over_ssh,
        options.deep_view().args == options.args.deep_view(),
        options.deep_view().port_forwards == options.port_forwards.deep_view(),
        RemoteConnectionOptions::Ssh(options).deep_view() == RemoteOptionsModel::Ssh(
            options.deep_view(),
        ),
        connection.deep_view().host == connection.host@,
        connection.deep_view().username == connection.username.deep_view(),
        connection.deep_view().port == connection.port,
        connection.deep_view().nickname == connection.nickname.deep_view(),
        connection.deep_view().upload_binary_over_ssh == connection.upload_binary_over_ssh,
        connection.deep_view().args == connection.args.deep_view(),
        connection.deep_view().port_forwards == connection.port_forwards.deep_view(),
        forward.deep_view().local_host == forward.local_host.deep_view(),
        forward.deep_view().local_port == forward.local_port,
        forward.deep_view().remote_host == forward.remote_host.deep_view(),
        forward.deep_view().remote_port == forward.remote_port,
        wsl.deep_view().distro_name == wsl.distro_name@,
        wsl.deep_view().user == wsl.user.deep_view(),
{
}

} // verus!
