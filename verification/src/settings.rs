//! The settings for remote connections.

use crate::connection::{
    clone_forwards, clone_texts, plain_ssh_options, SshConnection, SshConnectionModel,
    SshConnectionOptions, SshOptionsModel,
};
use vstd::prelude::*;

verus! {

/// The part of the settings files that is about remote connections, where what is left out is
/// `None`. The connections are of the types that the settings files are read into.
#[derive(Debug, PartialEq, Eq)]
pub struct RemoteSettingsContent<S, W> {
    pub ssh_connections: Option<Vec<S>>,
    pub wsl_connections: Option<Vec<W>>,
    pub read_ssh_config: Option<bool>,
}

/// The settings for remote connections.
#[derive(Debug, PartialEq, Eq)]
pub struct RemoteSettings<S, W> {
    pub ssh_connections: Vec<S>,
    pub wsl_connections: Vec<W>,
    /// Whether to read `~/.ssh/config` for SSH connection sources.
    pub read_ssh_config: bool,
}

/// The connection leads to the host, user and port of the options.
pub open spec fn leads_to(connection: SshConnectionModel, options: SshOptionsModel) -> bool {
    &&& connection.host == options.host
    &&& connection.username == options.username
    &&& connection.port == options.port
}

/// The `i`th connection is the first that leads to the host, user and port of the options.
pub open spec fn leads_there_first(
    connections: Seq<SshConnectionModel>,
    options: SshOptionsModel,
    i: int,
) -> bool {
    &&& 0 <= i < connections.len()
    &&& leads_to(connections[i], options)
    &&& forall|j: int| 0 <= j < i ==> !leads_to(#[trigger] connections[j], options)
}

/// The options, with what the connection says of how to connect.
pub open spec fn overlaid(
    options: SshOptionsModel,
    connection: SshConnectionModel,
) -> SshOptionsModel {
    SshOptionsModel {
        nickname: connection.nickname,
        upload_binary_over_ssh: connection.upload_binary_over_ssh == Some(true),
        args: Some(connection.args),
        port_forwards: connection.port_forwards,
        ..options
    }
}

/// The options, with what the settings say of how to connect. The first connection in the settings
/// that leads there counts.
pub open spec fn filled(
    connections: Seq<SshConnectionModel>,
    options: SshOptionsModel,
) -> SshOptionsModel {
    if exists|i: int| leads_there_first(connections, options, i) {
        overlaid(
            options,
            connections[choose|i: int| leads_there_first(connections, options, i)],
        )
    } else {
        options
    }
}

fn same_text(a: &Option<String>, b: &Option<String>) -> (same: bool)
    ensures
        same == (a.deep_view() == b.deep_view()),
{
    match (a, b) {
        (Some(a), Some(b)) => *a == *b,
        (None, None) => true,
        _ => false,
    }
}

fn same_port(a: Option<u16>, b: Option<u16>) -> (same: bool)
    ensures
        same == (a == b),
{
    match (a, b) {
        (Some(a), Some(b)) => a == b,
        (None, None) => true,
        _ => false,
    }
}

/// What a list in the settings files amounts to: one that is left out is empty.
pub open spec fn listed<T>(connections: Option<Vec<T>>) -> Seq<T> {
    match connections {
        Some(connections) => connections@,
        None => Seq::empty(),
    }
}

fn list<T>(connections: Option<Vec<T>>) -> (list: Vec<T>)
    ensures
        list@ == listed(connections),
{
    match connections {
        Some(connections) => connections,
        None => Vec::new(),
    }
}

impl<S, W> RemoteSettings<S, W> {
    /// The settings that the settings files amount to. Lists that are left out are empty.
    pub fn from_settings(content: RemoteSettingsContent<S, W>) -> (settings: Self)
        requires
            content.read_ssh_config is Some,
        ensures
            settings.ssh_connections@ == listed(content.ssh_connections),
            settings.wsl_connections@ == listed(content.wsl_connections),
            Some(settings.read_ssh_config) == content.read_ssh_config,
    {
        RemoteSettings {
            ssh_connections: list(content.ssh_connections),
            wsl_connections: list(content.wsl_connections),
            read_ssh_config: content.read_ssh_config.unwrap(),
        }
    }
}

/// Each of `copies` is a clone of its counterpart in `connections`.
pub open spec fn are_clones<T: Clone>(copies: Seq<T>, connections: Seq<T>) -> bool {
    &&& copies.len() == connections.len()
    &&& forall|i: int| 0 <= i < copies.len() ==> cloned(connections[i], #[trigger] copies[i])
}

impl<S: Clone, W: Clone> RemoteSettings<S, W> {
    /// The SSH connections in the settings.
    pub fn ssh_connections(&self) -> (connections: Vec<S>)
        ensures
            are_clones(connections@, self.ssh_connections@),
    {
        self.ssh_connections.clone()
    }

    /// The WSL connections in the settings.
    pub fn wsl_connections(&self) -> (connections: Vec<W>)
        ensures
            are_clones(connections@, self.wsl_connections@),
    {
        self.wsl_connections.clone()
    }
}

impl<W> RemoteSettings<SshConnection, W> {
    /// Fills in what the settings say of how to connect to the host, user and port of the options.
    pub fn fill_connection_options_from_settings(&self, options: &mut SshConnectionOptions)
        ensures
            final(options).deep_view() == filled(
                self.ssh_connections.deep_view(),
                old(options).deep_view(),
            ),
    {
        let ghost connections = self.ssh_connections.deep_view();
        let ghost before = options.deep_view();
        let mut i: usize = 0;
        while i < self.ssh_connections.len()
            invariant
                i <= self.ssh_connections@.len(),
                connections == self.ssh_connections.deep_view(),
                options.deep_view() == before,
                before == old(options).deep_view(),
                forall|j: int| 0 <= j < i ==> !leads_to(#[trigger] connections[j], before),
            decreases self.ssh_connections@.len() - i,
        {
            let connection = &self.ssh_connections[i];
            assert(connections[i as int] == connection.deep_view());
            if connection.host == options.host && same_text(
                &connection.username,
                &options.username,
            ) && same_port(connection.port, options.port) {
                options.nickname = connection.nickname.clone();
                options.upload_binary_over_ssh = match connection.upload_binary_over_ssh {
                    Some(upload) => upload,
                    None => false,
                };
                options.args = Some(clone_texts(&connection.args));
                options.port_forwards = clone_forwards(&connection.port_forwards);
                proof {
                    assert(leads_there_first(connections, before, i as int));
                    lemma_first_is_unique(connections, before, i as int);
                }
                return ;
            }
            i += 1;
        }
        proof {
            if exists|j: int| leads_there_first(connections, before, j) {
                let j = choose|j: int| leads_there_first(connections, before, j);
                assert(leads_to(connections[j], before));
            }
        }
    }

    /// The options for a connection to the port on the host, as the user. The host is given as it
    /// is printed.
    pub fn connection_options_for(
        &self,
        host: String,
        port: Option<u16>,
        username: Option<String>,
    ) -> (options: SshConnectionOptions)
        ensures
            options.deep_view() == filled(
                self.ssh_connections.deep_view(),
                plain_ssh_options(host@, port, username.deep_view()),
            ),
    {
        let defaults = SshConnectionOptions::default();
        let mut options = SshConnectionOptions { host, port, username, ..defaults };
        self.fill_connection_options_from_settings(&mut options);
        options
    }
}

proof fn lemma_first_is_unique(
    connections: Seq<SshConnectionModel>,
    options: SshOptionsModel,
    i: int,
)
    requires
        leads_there_first(connections, options, i),
    ensures
        i == choose|j: int| leads_there_first(connections, options, j),
{
    let j = choose|j: int| leads_there_first(connections, options, j);
    assert(leads_to(connections[i], options));
    assert(leads_to(connections[j], options));
}

/// Filling in what the settings say changes neither where the connection leads nor its password,
/// and filling it in a second time changes nothing.
pub proof fn law_filling_keeps_the_destination(
    connections: Seq<SshConnectionModel>,
    options: SshOptionsModel,
)
    ensures
        filled(connections, options).host == options.host,
        filled(connections, options).username == options.username,
        filled(connections, options).port == options.port,
        filled(connections, options).password == options.password,
        filled(connections, filled(connections, options)) == filled(connections, options),
{
    let once = filled(connections, options);
    assert forall|i: int| leads_there_first(connections, options, i) implies leads_there_first(
        connections,
        once,
        i,
    ) by {}
    assert forall|i: int| leads_there_first(connections, once, i) implies leads_there_first(
        connections,
        options,
        i,
    ) by {}
    if exists|i: int| leads_there_first(connections, options, i) {
        let i = choose|i: int| leads_there_first(connections, options, i);
        assert(leads_there_first(connections, once, i));
        lemma_first_is_unique(connections, once, i);
    }
}

/// A connection in the settings is filled in unless an earlier one leads to the same place; where
/// none leads there, the options stay as they are.
pub proof fn law_the_first_connection_counts(
    connections: Seq<SshConnectionModel>,
    options: SshOptionsModel,
)
    ensures
        forall|i: int| #[trigger]
            leads_there_first(connections, options, i) ==> filled(connections, options) == overlaid(
                options,
                connections[i],
            ),
        (forall|i: int|
            0 <= i < connections.len() ==> !leads_to(#[trigger] connections[i], options))
            ==> filled(connections, options) == options,
{
    assert forall|i: int| #[trigger] leads_there_first(connections, options, i) implies filled(
        connections,
        options,
    ) == overlaid(options, connections[i]) by {
        lemma_first_is_unique(connections, options, i);
    }
    if exists|i: int| leads_there_first(connections, options, i) {
        let i = choose|i: int| leads_there_first(connections, options, i);
        assert(leads_to(connections[i], options));
    }
}

/// The first connection in the settings that leads to the host, user and port of the options fills
/// in the nickname, the arguments and the forwarded ports that it has, and whether to upload the
/// binary: as it says, and not if it says nothing. All else stays as it was.
pub proof fn law_what_the_first_connection_fills_in(
    connections: Seq<SshConnectionModel>,
    options: SshOptionsModel,
    i: int,
)
    requires
        0 <= i < connections.len(),
        connections[i].host == options.host,
        connections[i].username == options.username,
        connections[i].port == options.port,
        forall|j: int|
            0 <= j < i ==> (#[trigger] connections[j]).host != options.host
                || connections[j].username != options.username || connections[j].port
                != options.port,
    ensures
        filled(connections, options).nickname == connections[i].nickname,
        filled(connections, options).args == Some(connections[i].args),
        filled(connections, options).port_forwards == connections[i].port_forwards,
        connections[i].upload_binary_over_ssh matches Some(upload) ==> filled(
            connections,
            options,
        ).upload_binary_over_ssh == upload,
        connections[i].upload_binary_over_ssh is None ==> !filled(
            connections,
            options,
        ).upload_binary_over_ssh,
        filled(connections, options).host == options.host,
        filled(connections, options).username == options.username,
        filled(connections, options).port == options.port,
        filled(connections, options).password == options.password,
{
    assert(leads_there_first(connections, options, i));
    lemma_first_is_unique(connections, options, i);
}

/// Where no connection in the settings leads to the host, user and port of the options, nothing is
/// filled in.
pub proof fn law_nothing_is_filled_in_from_elsewhere(
    connections: Seq<SshConnectionModel>,
    options: SshOptionsModel,
)
    requires
        forall|j: int|
            0 <= j < connections.len() ==> (#[trigger] connections[j]).host != options.host
                || connections[j].username != options.username || connections[j].port
                != options.port,
    ensures
        filled(connections, options) == options,
{
    if exists|i: int| leads_there_first(connections, options, i) {
        let i = choose|i: int| leads_there_first(connections, options, i);
        assert(connections[i].host == options.host);
    }
}

/// What is asked for when options are put together is the host, the port and the user; of anything
/// else, the options say only what is filled in.
pub proof fn law_options_lead_where_asked(
    host: Seq<char>,
    port: Option<u16>,
    username: Option<Seq<char>>,
)
    ensures
        plain_ssh_options(host, port, username).host == host,
        plain_ssh_options(host, port, username).port == port,
        plain_ssh_options(host, port, username).username == username,
        plain_ssh_options(host, port, username).password is None,
        plain_ssh_options(host, port, username).nickname is None,
        !plain_ssh_options(host, port, username).upload_binary_over_ssh,
        plain_ssh_options(host, port, username).args is None,
        plain_ssh_options(host, port, username).port_forwards is None,
{
}

/// The settings hold the connections of the settings files, all of them and in their order, and
/// hand out a clone of each.
pub proof fn law_settings_are_taken_over<S: Clone, W: Clone>(
    content: RemoteSettingsContent<S, W>,
    settings: RemoteSettings<S, W>,
    ssh: Vec<S>,
    wsl: Vec<W>,
)
    requires
        call_ensures(RemoteSettings::<S, W>::from_settings, (content,), settings),
        call_ensures(RemoteSettings::<S, W>::ssh_connections, (&settings,), ssh),
        call_ensures(RemoteSettings::<S, W>::wsl_connections, (&settings,), wsl),
    ensures
        content.ssh_connections matches Some(connections) ==> settings.ssh_connections@
            == connections@,
        content.ssh_connections is None ==> settings.ssh_connections@.len() == 0,
        content.wsl_connections matches Some(connections) ==> settings.wsl_connections@
            == connections@,
        content.wsl_connections is None ==> settings.wsl_connections@.len() == 0,
        content.read_ssh_config == Some(settings.read_ssh_config),
        ssh@.len() == settings.ssh_connections@.len(),
        forall|i: int|
            0 <= i < ssh@.len() ==> cloned(settings.ssh_connections@[i], #[trigger] ssh@[i]),
        wsl@.len() == settings.wsl_connections@.len(),
        forall|i: int|
            0 <= i < wsl@.len() ==> cloned(settings.wsl_connections@[i], #[trigger] wsl@[i]),
{
}

} // verus!
