//! Connecting to a remote repository by way of an ssh program: which program to run, what
//! kind of client it is, and what is handed to the process that is spawned on demand.

use vstd::prelude::*;

pub mod connect;
pub mod invocation;
pub mod program_kind;

verus! {

/// Why no connection could be set up.
#[derive(Clone, Debug, PartialEq, Eq)]
pub enum Error {
    /// The URL is no ssh URL, or it names no host.
    UnsupportedScheme(Url),
    /// The host name could be mistaken for a command-line argument.
    AmbiguousHostName {
        /// The host name as the URL holds it.
        host: String,
    },
}

/// The kinds of ssh programs with built-in support. They differ in the arguments they take.
#[derive(Clone, Copy, Debug, PartialEq, Eq, Structural)]
pub enum ProgramKind {
    /// The standard ssh program.
    Ssh,
    /// The `plink` binary.
    Plink,
    /// The `putty` binary.
    Putty,
    /// The `tortoiseplink.exe` binary.
    TortoisePlink,
    /// A minimal ssh client that supports no options.
    Simple,
}

/// The version of the transfer protocol to ask the remote for.
#[derive(Clone, Copy, Debug, PartialEq, Eq, Structural)]
pub enum Protocol {
    /// The first protocol, which announces no version.
    V0,
    /// Version one.
    V1,
    /// Version two.
    V2,
}

/// How a URL says the repository is reached.
#[derive(Clone, Debug, PartialEq, Eq)]
pub enum Scheme {
    /// A local resource.
    File,
    /// A git daemon.
    Git,
    /// An ssh tunnel.
    Ssh,
    /// HTTP.
    Http,
    /// HTTPS.
    Https,
    /// The built-in `ext` remote helper.
    Ext,
    /// A remote helper of this name, written as `<helper>::<address>`.
    Helper(String),
    /// A remote helper of this name, written as a URL.
    HelperUrl(String),
}

/// The parts of a repository URL that a connection is made from.
#[derive(Clone, Debug, PartialEq, Eq)]
pub struct Url {
    /// The scheme of the URL.
    pub scheme: Scheme,
    /// The user to log in as.
    pub user: Option<String>,
    /// The password of the user.
    pub password: Option<String>,
    /// The host to connect to.
    pub host: Option<String>,
    /// The port to connect to.
    pub port: Option<u16>,
    /// The path of the repository on the host.
    pub path: Vec<u8>,
}

/// A part of a URL, classified by whether it can be passed to a program as an argument.
#[derive(Clone, Copy, Debug, PartialEq, Eq)]
pub enum ArgumentSafety<'a> {
    /// There is nothing to pass.
    Absent,
    /// The part does not begin with `-`, so it cannot be taken for an option.
    Usable(&'a str),
    /// The part begins with `-` and could be taken for an option.
    Dangerous(&'a str),
}

/// The call of an ssh program that finds out whether it understands the options of the
/// standard client.
#[derive(Clone, Debug, PartialEq, Eq)]
pub struct FeatureCheck {
    /// The program to run, with its three standard streams closed.
    pub program: String,
    /// The arguments to pass.
    pub args: Vec<String>,
    /// Whether a shell may run the program where it looks like a script.
    pub may_use_shell: bool,
}

/// All that is needed to spawn the ssh program once the first request is made.
#[derive(Clone, Debug, PartialEq, Eq)]
pub struct SpawnProcessOnDemand {
    /// The URL of the repository.
    pub url: Url,
    /// The ssh program to run.
    pub ssh_cmd: String,
    /// The path of the repository, in the form that the remote shell expands.
    pub path: Vec<u8>,
    /// The kind of client that the program is.
    pub ssh_kind: ProgramKind,
    /// Whether a shell must not be used to run the program.
    pub ssh_disallow_shell: bool,
    /// The protocol version to ask for.
    pub desired_version: Protocol,
    /// Whether the lines sent and received are traced.
    pub trace: bool,
}

/// The bytes of a text.
pub open spec fn text_bytes(text: Seq<char>) -> Seq<u8> {
    vstd::utf8::encode_utf8(text)
}

/// Whether a program would take an argument of these bytes for an option.
pub open spec fn looks_like_option(bytes: Seq<u8>) -> bool {
    bytes.len() > 0 && bytes[0] == 45
}

/// Whether `path` begins with `/~`, the mark of a path below a home directory.
pub open spec fn begins_with_home(path: Seq<u8>) -> bool {
    path.len() >= 2 && path[0] == 47 && path[1] == 126
}

/// The repository path `path` of a URL in the form that a shell on the remote expands:
/// a leading `/~/` or `/~user/` becomes `~/` or `~user/`. This is what
/// `gix_url::expand_path::for_shell` returns.
pub uninterp spec fn shell_path(path: Seq<u8>) -> Seq<u8>;

/// Calls `gix_url::expand_path::for_shell` on the bytes of a URL's path. The contract claims
/// that the result is determined by those bytes, under the name `shell_path`, and that a path
/// which does not begin with `/~` comes back as it is.
#[verifier::external_body]
fn for_shell(path: Vec<u8>) -> (shell: Vec<u8>)
    ensures
        shell@ == shell_path(path@),
        !begins_with_home(path@) ==> shell@ == path@,
{
    gix_url::expand_path::for_shell(path.into()).into()
}

/// Whether `b` is a byte with a meaning in the syntax of paths on some platform: a slash, a
/// backslash, a colon or a dot.
pub open spec fn is_path_syntax(b: u8) -> bool {
    b == 47 || b == 92 || b == 58 || b == 46
}

/// Whether `command` is a bare program name: it is not empty and holds no byte of path syntax.
pub open spec fn plain_name(command: Seq<u8>) -> bool {
    command.len() > 0 && forall|k: int|
        0 <= k < command.len() ==> !is_path_syntax(#[trigger] command[k])
}

/// What holds of the file stem of `command` on every platform: a stem is a piece of the
/// command as it is written, and a bare program name is its own stem.
pub open spec fn may_be_stem_of(command: Seq<u8>, stem: Option<Seq<u8>>) -> bool {
    &&& stem is Some ==> exists|i: int, j: int|
        0 <= i <= j <= command.len() && stem->0 == #[trigger] command.subrange(i, j)
    &&& plain_name(command) ==> stem == Some(command)
}

/// Whether the name of the program alone tells the kind of client on every platform: it is a
/// bare name, and the name of one of the known clients.
pub open spec fn name_tells_kind(ssh_cmd: Seq<char>) -> bool {
    plain_name(text_bytes(ssh_cmd)) && ProgramKind::of_stem(Some(text_bytes(ssh_cmd)))
        != ProgramKind::Simple
}

/// The bytes of a stem that was handed out, if one was.
pub open spec fn stem_bytes(stem: Option<Vec<u8>>) -> Option<Seq<u8>> {
    match stem {
        Some(bytes) => Some(bytes@),
        None => None,
    }
}

/// Calls `std::path::Path::file_stem` on the name of a program and hands out the bytes of the
/// stem. Which part of a name is its stem depends on the platform's path syntax, so the
/// contract claims only what holds on all of them: the stem is a part of the file name, which
/// is the last component of the path as it is written; and a name without a separator, a
/// drive colon or a dot is one component without an extension, hence its own stem.
#[verifier::external_body]
fn program_stem(command: &str) -> (stem: Option<Vec<u8>>)
    ensures
        may_be_stem_of(text_bytes(command@), stem_bytes(stem)),
{
    let stem = std::path::Path::new(command).file_stem()?;
    Some(stem.to_str()?.as_bytes().to_vec())
}

impl Url {
    /// How the host of the URL can be passed to a program.
    pub open spec fn host_is_dangerous(&self) -> bool {
        self.host matches Some(host) && looks_like_option(text_bytes(host@))
    }

    /// Returns the host that the URL names, if it names one.
    pub fn host(&self) -> (host: Option<&str>)
        ensures
            host is Some <==> self.host is Some,
            host matches Some(text) ==> self.host is Some && text@ == self.host->0@,
    {
        match &self.host {
            Some(host) => Some(host.as_str()),
            None => None,
        }
    }

    /// Classifies the host of the URL by whether it can be passed to a program as an argument:
    /// a host that begins with `-` is dangerous.
    pub fn host_as_argument(&self) -> (arg: ArgumentSafety<'_>)
        ensures
            self.host is None <==> arg is Absent,
            arg matches ArgumentSafety::Usable(text) ==> self.host is Some && text@
                == self.host->0@ && !self.host_is_dangerous(),
            arg matches ArgumentSafety::Dangerous(text) ==> self.host is Some && text@
                == self.host->0@ && self.host_is_dangerous(),
    {
        match &self.host {
            None => ArgumentSafety::Absent,
            Some(host) => {
                let text = host.as_str();
                let bytes = text.as_bytes();
                if bytes.len() > 0 && bytes[0] == 45 {
                    ArgumentSafety::Dangerous(text)
                } else {
                    ArgumentSafety::Usable(text)
                }
            },
        }
    }
}

/// Whether `check` is the feature check of `ssh_cmd` for `host`: the program is called with
/// `-G` and the host, through a shell only where that is not disallowed.
pub open spec fn is_feature_check(
    check: FeatureCheck,
    ssh_cmd: Seq<char>,
    host: Seq<char>,
    disallow_shell: bool,
) -> bool {
    &&& check.program@ == ssh_cmd
    &&& check.args@.len() == 2
    &&& check.args@[0]@ == "-G"@
    &&& check.args@[1]@ == host
    &&& check.may_use_shell == !disallow_shell
}

/// Whether `res` is the kind of client decided for a program whose name has the stem `stem`.
///
/// A known kind stands. Else the stem decides, unless it names none of the known clients:
/// then a dangerous host is refused, and otherwise the program is asked by the feature
/// check, which makes it the standard client if it succeeds and the simple one if not.
pub open spec fn kind_explained<F: FnOnce(&FeatureCheck) -> bool>(
    known_kind: Option<ProgramKind>,
    stem: Option<Seq<u8>>,
    ssh_cmd: Seq<char>,
    url: Url,
    disallow_shell: bool,
    probe: F,
    res: Result<ProgramKind, Error>,
) -> bool {
    match known_kind {
        Some(kind) => res == Ok::<ProgramKind, Error>(kind),
        None => if ProgramKind::of_stem(stem) != ProgramKind::Simple {
            res == Ok::<ProgramKind, Error>(ProgramKind::of_stem(stem))
        } else if url.host_is_dangerous() {
            res matches Err(Error::AmbiguousHostName { host }) && host@ == url.host->0@
        } else {
            exists|check: FeatureCheck, succeeded: bool| #[trigger]
                call_ensures(probe, (&check,), succeeded) && url.host is Some && is_feature_check(
                    check,
                    ssh_cmd,
                    url.host->0@,
                    disallow_shell,
                ) && res == Ok::<ProgramKind, Error>(
                    if succeeded {
                        ProgramKind::Ssh
                    } else {
                        ProgramKind::Simple
                    },
                )
        },
    }
}

/// Puts together the call that asks `ssh_cmd` whether it is a standard client.
///
/// A host that could be taken for an option is refused. The URL must name a host, as every
/// ssh URL does.
pub fn build_client_feature_check_command(ssh_cmd: &str, url: &Url, disallow_shell: bool) -> (res:
    Result<FeatureCheck, Error>)
    requires
        url.host is Some,
    ensures
        res is Err <==> url.host_is_dangerous(),
        res matches Err(e) ==> e matches Error::AmbiguousHostName { host } && host@
            == url.host->0@,
        res matches Ok(check) ==> is_feature_check(check, ssh_cmd@, url.host->0@, disallow_shell),
{
    match url.host_as_argument() {
        ArgumentSafety::Usable(host) => {
            let mut args: Vec<String> = Vec::new();
            args.push("-G".to_owned());
            args.push(host.to_owned());
            Ok(FeatureCheck { program: ssh_cmd.to_owned(), args, may_use_shell: !disallow_shell })
        },
        ArgumentSafety::Dangerous(host) => Err(Error::AmbiguousHostName { host: host.to_owned() }),
        ArgumentSafety::Absent => Err(Error::AmbiguousHostName { host: String::new() }),
    }
}

/// Decides the kind of client for a program whose name has the stem `stem`, asking the
/// program itself through `probe` where neither `known_kind` nor the stem tells.
pub fn decide_client_kind<F: FnOnce(&FeatureCheck) -> bool>(
    known_kind: Option<ProgramKind>,
    stem: Option<&[u8]>,
    ssh_cmd: &str,
    url: &Url,
    disallow_shell: bool,
    probe: F,
) -> (res: Result<ProgramKind, Error>)
    requires
        known_kind is None && ProgramKind::of_stem(
            match stem {
                Some(name) => Some(name@),
                None => None,
            },
        ) == ProgramKind::Simple ==> url.host is Some && forall|check: &FeatureCheck| #[trigger]
            call_requires(probe, (check,)),
    ensures
        kind_explained(
            known_kind,
            match stem {
                Some(name) => Some(name@),
                None => None,
            },
            ssh_cmd@,
            *url,
            disallow_shell,
            probe,
            res,
        ),
{
    match known_kind {
        Some(kind) => Ok(kind),
        None => {
            let guessed = ProgramKind::from_stem(stem);
            if guessed != ProgramKind::Simple {
                return Ok(guessed);
            }
            match build_client_feature_check_command(ssh_cmd, url, disallow_shell) {
                Err(e) => Err(e),
                Ok(check) => {
                    let succeeded = probe(&check);
                    if succeeded {
                        Ok(ProgramKind::Ssh)
                    } else {
                        Ok(ProgramKind::Simple)
                    }
                },
            }
        },
    }
}

/// Determines the kind of client that `ssh_cmd` is: the known kind if there is one, else
/// what the stem of the program's name tells, else what the program answers to a feature
/// check run by `probe`.
///
/// The URL needs a host, and `probe` must be callable, only where the program may have to be
/// asked: the kind is unknown and the name alone does not tell it.
pub fn determine_client_kind<F: FnOnce(&FeatureCheck) -> bool>(
    known_kind: Option<ProgramKind>,
    ssh_cmd: &str,
    url: &Url,
    disallow_shell: bool,
    probe: F,
) -> (res: Result<ProgramKind, Error>)
    requires
        known_kind is None && !name_tells_kind(ssh_cmd@) ==> url.host is Some && forall|
            check: &FeatureCheck,
        | #[trigger] call_requires(probe, (check,)),
    ensures
        exists|stem: Option<Seq<u8>>| #[trigger]
            kind_explained(known_kind, stem, ssh_cmd@, *url, disallow_shell, probe, res) && (
            known_kind is None ==> may_be_stem_of(text_bytes(ssh_cmd@), stem)),
        known_kind is None && name_tells_kind(ssh_cmd@) ==> res == Ok::<ProgramKind, Error>(
            ProgramKind::of_stem(Some(text_bytes(ssh_cmd@))),
        ),
{
    match known_kind {
        Some(kind) => {
            assert(kind_explained(
                known_kind,
                None::<Seq<u8>>,
                ssh_cmd@,
                *url,
                disallow_shell,
                probe,
                Ok::<ProgramKind, Error>(kind),
            ));
            Ok(kind)
        },
        None => {
            let stem = program_stem(ssh_cmd);
            let res = match &stem {
                Some(name) => decide_client_kind(
                    known_kind,
                    Some(name.as_slice()),
                    ssh_cmd,
                    url,
                    disallow_shell,
                    probe,
                ),
                None => decide_client_kind(known_kind, None, ssh_cmd, url, disallow_shell, probe),
            };
            assert(kind_explained(
                known_kind,
                stem_bytes(stem),
                ssh_cmd@,
                *url,
                disallow_shell,
                probe,
                res,
            ));
            res
        },
    }
}

/// The kind of client of a connection that was set up, or the error that prevented it.
pub open spec fn kind_of(res: Result<SpawnProcessOnDemand, Error>) -> Result<ProgramKind, Error> {
    match res {
        Ok(connection) => Ok(connection.ssh_kind),
        Err(e) => Err(e),
    }
}

/// Sets up a connection to the host of `url` by way of the ssh program of `options`, to be
/// spawned when the first request is made.
///
/// A URL that is no ssh URL or names no host is refused. The kind of client is the one in
/// `options`, or else determined from the program; `probe` runs the feature check where that
/// takes one, and must be callable only then. The repository path is handed on in the form
/// that the remote shell expands.
pub fn connect<F: FnOnce(&FeatureCheck) -> bool>(
    url: Url,
    desired_version: Protocol,
    options: connect::Options,
    trace: bool,
    probe: F,
) -> (res: Result<SpawnProcessOnDemand, Error>)
    requires
        options.kind is None && url.scheme is Ssh && url.host is Some && !name_tells_kind(
            options.command_text(),
        ) ==> forall|check: &FeatureCheck| #[trigger] call_requires(probe, (check,)),
    ensures
        !(url.scheme is Ssh) || url.host is None ==> res == Err::<SpawnProcessOnDemand, Error>(
            Error::UnsupportedScheme(url),
        ),
        url.scheme is Ssh && url.host is Some ==> exists|stem: Option<Seq<u8>>| #[trigger]
            kind_explained(
                options.kind,
                stem,
                options.command_text(),
                url,
                options.disallow_shell,
                probe,
                kind_of(res),
            ) && (options.kind is None ==> may_be_stem_of(
                text_bytes(options.command_text()),
                stem,
            )),
        url.scheme is Ssh && url.host is Some && options.kind is None && name_tells_kind(
            options.command_text(),
        ) ==> kind_of(res) == Ok::<ProgramKind, Error>(
            ProgramKind::of_stem(Some(text_bytes(options.command_text()))),
        ),
        res matches Ok(connection) ==> {
            &&& connection.url == url
            &&& connection.ssh_cmd@ == options.command_text()
            &&& connection.path@ == shell_path(url.path@)
            &&& !begins_with_home(url.path@) ==> connection.path@ == url.path@
            &&& connection.ssh_disallow_shell == options.disallow_shell
            &&& connection.desired_version == desired_version
            &&& connection.trace == trace
        },
{
    let is_ssh = match &url.scheme {
        Scheme::Ssh => true,
        _ => false,
    };
    if !is_ssh || url.host.is_none() {
        return Err(Error::UnsupportedScheme(url));
    }
    let ssh_cmd = options.ssh_command();
    let decided = determine_client_kind(options.kind, ssh_cmd, &url, options.disallow_shell, probe);
    let ghost stem = choose|stem: Option<Seq<u8>>| #[trigger]
        kind_explained(
            options.kind,
            stem,
            options.command_text(),
            url,
            options.disallow_shell,
            probe,
            decided,
        ) && (options.kind is None ==> may_be_stem_of(text_bytes(options.command_text()), stem));
    let res = match decided {
        Err(e) => Err(e),
        Ok(kind) => {
            let path = for_shell(url.path.clone());
            Ok(
                SpawnProcessOnDemand {
                    ssh_cmd: ssh_cmd.to_owned(),
                    path,
                    ssh_kind: kind,
                    ssh_disallow_shell: options.disallow_shell,
                    desired_version,
                    trace,
                    url,
                },
            )
        },
    };
    assert(kind_of(res) == decided);
    assert(kind_explained(
        options.kind,
        stem,
        options.command_text(),
        url,
        options.disallow_shell,
        probe,
        kind_of(res),
    ));
    res
}

} // verus!
