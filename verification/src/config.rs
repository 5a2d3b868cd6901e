//! Where the proxy listens: the address and port that the command line,
//! the environment and the configuration file name, merged by precedence.

use vstd::prelude::*;
use vstd::string::*;
use crate::port::{decimal_text, parse_port, port_of_text, push_decimal};

verus! {

/// The port to listen on where no source names one.
pub const DEFAULT_PORT: u16 = 8080;

/// The address to listen on where no source names one.
pub open spec fn default_ip() -> Seq<char> {
    "127.0.0.1"@
}

/// One of the places a setting can come from, highest precedence first.
#[derive(Clone, Copy, Debug, PartialEq, Eq, Structural)]
pub enum Origin {
    CommandLine,
    Environment,
    File,
}

/// What the command line, or the environment, says: each setting as the
/// text that was given for it, if any was.
#[derive(Debug, PartialEq, Eq)]
pub struct TextSource {
    pub ip: Option<String>,
    pub port: Option<String>,
}

/// The mathematical content of a [`TextSource`].
pub struct TextSourceView {
    pub ip: Option<Seq<char>>,
    pub port: Option<Seq<char>>,
}

impl View for TextSource {
    type V = TextSourceView;

    open spec fn view(&self) -> TextSourceView {
        TextSourceView { ip: self.ip.deep_view(), port: self.port.deep_view() }
    }
}

/// A value found under a key of the configuration file.
#[derive(Debug, PartialEq, Eq)]
pub enum FileValue {
    /// A number, with its value where it is a non-negative integer that
    /// fits in 64 bits.
    Number(Option<u64>),
    /// A string.
    Text(String),
    /// Anything else: null, a boolean, a sequence, a mapping.
    Other,
}

/// The mathematical content of a [`FileValue`].
pub enum FileValueView {
    Number(Option<u64>),
    Text(Seq<char>),
    Other,
}

impl View for FileValue {
    type V = FileValueView;

    open spec fn view(&self) -> FileValueView {
        match self {
            FileValue::Number(value) => FileValueView::Number(*value),
            FileValue::Text(text) => FileValueView::Text(text@),
            FileValue::Other => FileValueView::Other,
        }
    }
}

/// The view of a file value that may be absent.
pub open spec fn value_view(value: Option<FileValue>) -> Option<FileValueView> {
    match value {
        Some(given) => Some(given@),
        None => None,
    }
}

/// What the configuration file says: the values under `ip` and `port`.
#[derive(Debug, PartialEq, Eq)]
pub struct FileSource {
    pub ip: Option<FileValue>,
    pub port: Option<FileValue>,
}

/// The mathematical content of a [`FileSource`].
pub struct FileSourceView {
    pub ip: Option<FileValueView>,
    pub port: Option<FileValueView>,
}

impl View for FileSource {
    type V = FileSourceView;

    open spec fn view(&self) -> FileSourceView {
        FileSourceView { ip: value_view(self.ip), port: value_view(self.port) }
    }
}

/// Why no settings could be made.
#[derive(Debug, PartialEq, Eq)]
pub enum ConfigError {
    /// The configuration file is no YAML document; the text says why.
    Unparseable(String),
    /// The file decides the address, and its `ip` is not a string.
    IpNotText,
}

/// The merged settings.
#[derive(Debug, PartialEq, Eq)]
pub struct Settings {
    pub ip: String,
    pub port: u16,
    /// The source whose port took precedence and was refused, so that
    /// `port` is the default: the caller owes a warning for it.
    pub rejected: Option<Origin>,
}

/// The port that a value of the configuration file names: a non-negative
/// integer of at most 65535.
pub open spec fn port_of_value(value: FileValueView) -> Option<u16> {
    match value {
        FileValueView::Number(Some(n)) if n <= u16::MAX => Some(n as u16),
        _ => None,
    }
}

/// The source that decides the port: the first, by precedence, that names one.
pub open spec fn port_origin(cli: TextSourceView, env: TextSourceView, file: FileSourceView) -> Option<
    Origin,
> {
    if cli.port is Some {
        Some(Origin::CommandLine)
    } else if env.port is Some {
        Some(Origin::Environment)
    } else if file.port is Some {
        Some(Origin::File)
    } else {
        None
    }
}

/// The port that the deciding source names, where it names a valid one.
pub open spec fn port_claim(cli: TextSourceView, env: TextSourceView, file: FileSourceView) -> Option<
    u16,
> {
    match port_origin(cli, env, file) {
        Some(Origin::CommandLine) => port_of_text(cli.port->Some_0),
        Some(Origin::Environment) => port_of_text(env.port->Some_0),
        Some(Origin::File) => port_of_value(file.port->Some_0),
        None => None,
    }
}

/// The port to listen on: that of the deciding source, or the default
/// where no source names a port or the deciding one names an invalid one.
pub open spec fn effective_port(cli: TextSourceView, env: TextSourceView, file: FileSourceView) -> u16 {
    match port_claim(cli, env, file) {
        Some(port) => port,
        None => DEFAULT_PORT,
    }
}

/// The source whose port was refused, if one was.
pub open spec fn rejected_origin(
    cli: TextSourceView,
    env: TextSourceView,
    file: FileSourceView,
) -> Option<Origin> {
    if port_claim(cli, env, file) is None {
        port_origin(cli, env, file)
    } else {
        None
    }
}

/// The address to listen on: that of the first source, by precedence, that
/// names one, or the default. `None` where the file decides and its value
/// is not a string.
pub open spec fn effective_ip(cli: TextSourceView, env: TextSourceView, file: FileSourceView) -> Option<
    Seq<char>,
> {
    if cli.ip is Some {
        cli.ip
    } else if env.ip is Some {
        env.ip
    } else {
        match file.ip {
            Some(FileValueView::Text(text)) => Some(text),
            Some(_) => None,
            None => Some(default_ip()),
        }
    }
}

/// Reads a port from a value of the configuration file.
pub fn value_port(value: &FileValue) -> (port: Option<u16>)
    ensures
        port == port_of_value(value@),
{
    match value {
        FileValue::Number(Some(n)) => {
            if *n <= 65535 {
                Some(*n as u16)
            } else {
                None
            }
        },
        _ => None,
    }
}

/// Merges the three sources. The command line goes before the environment,
/// and that before the file. A port that is refused is not replaced by
/// that of a lower source but by the default, and is reported in
/// `rejected`.
pub fn merge(cli: TextSource, env: TextSource, file: FileSource) -> (merged: Result<
    Settings,
    ConfigError,
>)
    ensures
        match effective_ip(cli@, env@, file@) {
            Some(ip) => merged matches Ok(settings) && settings.ip@ == ip && settings.port
                == effective_port(cli@, env@, file@) && settings.rejected == rejected_origin(
                cli@,
                env@,
                file@,
            ),
            None => merged == Err::<Settings, ConfigError>(ConfigError::IpNotText),
        },
{
    let claim: Option<u16> = match &cli.port {
        Some(text) => parse_port(text.as_str()),
        None => match &env.port {
            Some(text) => parse_port(text.as_str()),
            None => match &file.port {
                Some(value) => value_port(value),
                None => None,
            },
        },
    };
    let decided: Option<Origin> = if cli.port.is_some() {
        Some(Origin::CommandLine)
    } else if env.port.is_some() {
        Some(Origin::Environment)
    } else if file.port.is_some() {
        Some(Origin::File)
    } else {
        None
    };
    let (port, rejected): (u16, Option<Origin>) = match claim {
        Some(port) => (port, None),
        None => (DEFAULT_PORT, decided),
    };
    let ip: String = match cli.ip {
        Some(text) => text,
        None => match env.ip {
            Some(text) => text,
            None => match file.ip {
                Some(FileValue::Text(text)) => text,
                Some(_) => {
                    return Err(ConfigError::IpNotText);
                },
                None => String::from_str("127.0.0.1"),
            },
        },
    };
    Ok(Settings { ip, port, rejected })
}

/// A source with its port taken out.
pub open spec fn without_port(source: TextSourceView) -> TextSourceView {
    TextSourceView { ip: source.ip, port: None }
}

/// The file with its port taken out.
pub open spec fn file_without_port(file: FileSourceView) -> FileSourceView {
    FileSourceView { ip: file.ip, port: None }
}

/// The port that the sources below `origin` give by themselves.
pub open spec fn port_below(
    origin: Origin,
    cli: TextSourceView,
    env: TextSourceView,
    file: FileSourceView,
) -> u16 {
    match origin {
        Origin::CommandLine => effective_port(without_port(cli), env, file),
        Origin::Environment => effective_port(without_port(cli), without_port(env), file),
        Origin::File => effective_port(
            without_port(cli),
            without_port(env),
            file_without_port(file),
        ),
    }
}

/// Precedence of the port. With a valid port in every source the command
/// line decides; with that of the command line taken out, the environment;
/// with that taken out too, the file; and with no port anywhere, the
/// default.
pub proof fn law_port_precedence(cli: TextSourceView, env: TextSourceView, file: FileSourceView)
    requires
        cli.port matches Some(text) && port_of_text(text) is Some,
        env.port matches Some(text) && port_of_text(text) is Some,
        file.port matches Some(value) && port_of_value(value) is Some,
    ensures
        Some(effective_port(cli, env, file)) == port_of_text(cli.port->Some_0),
        Some(effective_port(without_port(cli), env, file)) == port_of_text(env.port->Some_0),
        Some(effective_port(without_port(cli), without_port(env), file)) == port_of_value(
            file.port->Some_0,
        ),
        effective_port(without_port(cli), without_port(env), file_without_port(file))
            == DEFAULT_PORT,
{
}

/// The first source that names a port decides, whatever the sources below
/// it hold: a valid port there is the port, and no source below is asked.
pub proof fn law_first_port_decides(
    cli: TextSourceView,
    env: TextSourceView,
    file: FileSourceView,
    other_env: TextSourceView,
    other_file: FileSourceView,
)
    ensures
        cli.port is Some ==> effective_port(cli, env, file) == effective_port(
            cli,
            other_env,
            other_file,
        ),
        cli.port is None && env.port is Some ==> effective_port(cli, env, file) == effective_port(
            cli,
            env,
            other_file,
        ),
{
}

/// A refused port gives the default port and is reported, so that a
/// warning can be issued for it.
pub proof fn law_refused_port_gives_default(
    cli: TextSourceView,
    env: TextSourceView,
    file: FileSourceView,
)
    requires
        port_origin(cli, env, file) is Some,
        port_claim(cli, env, file) is None,
    ensures
        effective_port(cli, env, file) == DEFAULT_PORT,
        rejected_origin(cli, env, file) == port_origin(cli, env, file),
{
}

/// A refused port is replaced by what the sources below it give, wherever
/// those give the default port. (Where they give another port, the default
/// is taken all the same: see [`law_refused_port_gives_default`].)
pub proof fn law_refused_port_falls_back(
    cli: TextSourceView,
    env: TextSourceView,
    file: FileSourceView,
)
    requires
        port_origin(cli, env, file) matches Some(origin) && port_below(origin, cli, env, file)
            == DEFAULT_PORT,
        port_claim(cli, env, file) is None,
    ensures
        effective_port(cli, env, file) == port_below(
            port_origin(cli, env, file)->Some_0,
            cli,
            env,
            file,
        ),
        rejected_origin(cli, env, file) is Some,
{
}

/// The text `ip:port` under which the listening address is looked up.
pub open spec fn listen_text(ip: Seq<char>, port: u16) -> Seq<char> {
    ip + seq![':'] + decimal_text(port as nat)
}

/// Writes out the address to listen on, as `ip:port`.
pub fn listen_target(settings: &Settings) -> (target: String)
    ensures
        target@ == listen_text(settings.ip@, settings.port),
{
    let mut target = settings.ip.clone();
    proof {
        reveal_strlit(":");
    }
    target.append(":");
    push_decimal(&mut target, settings.port);
    assert(target@ =~= listen_text(settings.ip@, settings.port));
    target
}

} // verus!
