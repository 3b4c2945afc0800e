//! Configuration model and resolver: the as-authored document, override
//! precedence, placeholder substitution, forward-port normalization, and the
//! normalized configuration record every later stage consumes.

use vstd::prelude::*;

use crate::errors::DevcontainerError;
use crate::strutil::{
    basename_spec, contains_seq, has_sub_at, is_container_absolute, is_u16_string, join_path_spec,
    parent_spec, replace_seq, trim_spec, u16_value, container_absolute, join_path, parse_u16,
    path_basename, path_parent, replace_str, str_to_chars, sub_vec, trim_chars,
};

verus! {

/// Raw devcontainer configuration as read from the configuration document.
#[derive(Debug, Clone, PartialEq, Eq)]
pub struct DevcontainerConfig {
    pub name: Option<String>,
    pub image: Option<String>,
    pub docker_file: Option<String>,
    pub workspace_folder: Option<String>,
    /// Feature identifier paired with its options, serialized as JSON text.
    pub features: Vec<(String, String)>,
    pub forward_ports: Vec<ForwardPortDefinition>,
    pub post_create_command: Option<CommandDefinition>,
    pub post_attach_command: Option<CommandDefinition>,
}

impl Default for DevcontainerConfig {
    /// The empty document.
    fn default() -> (r: Self)
        ensures
            r.name is None,
            r.image is None,
            r.docker_file is None,
            r.workspace_folder is None,
            r.features@.len() == 0,
            r.forward_ports@.len() == 0,
            r.post_create_command is None,
            r.post_attach_command is None,
    {
        DevcontainerConfig {
            name: None,
            image: None,
            docker_file: None,
            workspace_folder: None,
            features: Vec::new(),
            forward_ports: Vec::new(),
            post_create_command: None,
            post_attach_command: None,
        }
    }
}

/// A forward-port entry as authored: a bare port number, or a
/// `"local:container"` string.
#[derive(Debug, Clone, PartialEq, Eq)]
pub enum ForwardPortDefinition {
    Number(u16),
    String(String),
}

/// A command as authored: a shell string, or an argument array.
#[derive(Debug, Clone, PartialEq, Eq)]
pub enum CommandArgs {
    String(String),
    Array(Vec<String>),
}

/// A hook command definition: a single command, or a named map of parallel
/// commands, kept in the document object's key order.
#[derive(Debug, Clone, PartialEq, Eq)]
pub enum CommandDefinition {
    Single(CommandArgs),
    Parallel(Vec<(String, CommandArgs)>),
}

/// A normalized forward port.
#[derive(Debug, Clone, Copy, PartialEq, Eq)]
pub struct ForwardPort {
    pub local_port: u16,
    pub container_port: u16,
    pub protocol: PortProtocol,
}

/// Protocol of a forwarded port.
#[derive(Debug, Clone, Copy, PartialEq, Eq)]
pub enum PortProtocol {
    Tcp,
    Udp,
}

impl Default for PortProtocol {
    /// The default protocol is TCP.
    fn default() -> (r: Self)
        ensures
            r == PortProtocol::Tcp,
    {
        PortProtocol::Tcp
    }
}

/// The views of the strings of an optional string value.
pub open spec fn view_opt(o: Option<String>) -> Option<Seq<char>> {
    match o {
        Some(s) => Some(s@),
        None => None,
    }
}

/// The views of a vector of strings.
pub open spec fn strs_view(v: Seq<String>) -> Seq<Seq<char>> {
    Seq::new(v.len(), |i: int| v[i]@)
}

impl CommandArgs {
    /// The argument vector a command is executed with: a shell string runs
    /// under `/bin/sh -c`; an array is passed through unchanged.
    pub open spec fn exec_args_spec(&self) -> Seq<Seq<char>> {
        match self {
            CommandArgs::String(c) => seq!["/bin/sh"@, "-c"@, c@],
            CommandArgs::Array(a) => strs_view(a@),
        }
    }

    /// Translate the command into the argument vector handed to `exec`.
    pub fn to_exec_args(&self) -> (r: Vec<String>)
        ensures
            strs_view(r@) == self.exec_args_spec(),
    {
        match self {
            CommandArgs::String(command) => {
                let mut out: Vec<String> = Vec::new();
                out.push(String::from_str("/bin/sh"));
                out.push(String::from_str("-c"));
                out.push(command.clone());
                proof {
                    assert(strs_view(out@) =~= self.exec_args_spec());
                }
                out
            },
            CommandArgs::Array(args) => {
                let mut out: Vec<String> = Vec::new();
                let n = args.len();
                let mut i: usize = 0;
                while i < n
                    invariant
                        n == args@.len(),
                        i <= n,
                        out@.len() == i,
                        strs_view(out@) == strs_view(args@).subrange(0, i as int),
                    decreases n - i,
                {
                    let elem: &String = &args[i];
                    let copy: String = elem.clone();
                    out.push(copy);
                    i = i + 1;
                    proof {
                        assert(out@[i - 1] == args@[i - 1]);
                        assert forall|j: int| 0 <= j < i implies strs_view(out@)[j] == strs_view(
                            args@,
                        ).subrange(0, i as int)[j] by {
                            assert(strs_view(out@)[j] == out@[j]@);
                            assert(strs_view(args@)[j] == args@[j]@);
                        }
                        assert(strs_view(out@) =~= strs_view(args@).subrange(0, i as int));
                    }
                }
                proof {
                    assert(strs_view(args@).subrange(0, n as int) =~= strs_view(args@));
                }
                out
            },
        }
    }
}

impl CommandDefinition {
    /// A single shell-string command.
    pub fn from_string(command: &str) -> (r: Self)
        ensures
            r matches CommandDefinition::Single(CommandArgs::String(c)) && c@ == command@,
    {
        CommandDefinition::Single(CommandArgs::String(String::from_str(command)))
    }

    /// A single argument-array command.
    pub fn from_array(args: Vec<String>) -> (r: Self)
        ensures
            r matches CommandDefinition::Single(CommandArgs::Array(a)) && a == args,
    {
        CommandDefinition::Single(CommandArgs::Array(args))
    }
}


/// Split `t` at its first colon: the parts before and after it.
pub open spec fn split_at_first_colon(t: Seq<char>) -> Option<(Seq<char>, Seq<char>)>
    decreases t.len(),
{
    if t.len() == 0 {
        None
    } else if t[0] == ':' {
        Some((Seq::<char>::empty(), t.skip(1)))
    } else {
        match split_at_first_colon(t.skip(1)) {
            None => None,
            Some(p) => Some((seq![t[0]] + p.0, p.1)),
        }
    }
}

proof fn lemma_split_first_colon(t: Seq<char>, k: int)
    requires
        0 <= k <= t.len(),
        forall|j: int| 0 <= j < k ==> t[j] != ':',
        k < t.len() ==> t[k] == ':',
    ensures
        k == t.len() ==> split_at_first_colon(t) is None,
        k < t.len() ==> split_at_first_colon(t) == Some((t.take(k), t.skip(k + 1))),
    decreases t.len(),
{
    if k == 0 {
        if t.len() > 0 {
            assert(t.take(0) =~= Seq::<char>::empty());
        }
    } else {
        let rest = t.skip(1);
        assert(forall|j: int| 0 <= j < k - 1 ==> rest[j] != ':');
        lemma_split_first_colon(rest, k - 1);
        if k < t.len() {
            assert(seq![t[0]] + rest.take(k - 1) =~= t.take(k));
            assert(rest.skip(k) =~= t.skip(k + 1));
        }
    }
}

/// The error text for a forward-port string whose `side` part (`container`
/// or `local`) is not a valid port number.
pub open spec fn port_error_message(value: Seq<char>, side: Seq<char>) -> Seq<char> {
    "Invalid forward port value '"@ + value + "': "@ + side + " port is not a valid port number"@
}

/// The error text for an empty forward-port string.
pub open spec fn empty_port_message() -> Seq<char> {
    "Invalid forward port value '': value must not be empty"@
}

/// What a forward-port definition resolves to: a bare number `P` gives
/// local = container = P over TCP; a string is trimmed, split on its first
/// colon into local and container parts (both equal to the whole string when
/// it has no colon), each parsed as an unsigned 16-bit number, the container
/// side first; a failing side is reported with the original string.
pub open spec fn resolve_port_spec(def: ForwardPortDefinition) -> Result<ForwardPort, Seq<char>> {
    match def {
        ForwardPortDefinition::Number(p) => Ok(
            ForwardPort { local_port: p, container_port: p, protocol: PortProtocol::Tcp },
        ),
        ForwardPortDefinition::String(value) => {
            let t = trim_spec(value@);
            if t.len() == 0 {
                Err(empty_port_message())
            } else {
                let parts = match split_at_first_colon(t) {
                    Some(p) => p,
                    None => (t, t),
                };
                if !is_u16_string(parts.1) {
                    Err(port_error_message(value@, "container"@))
                } else if !is_u16_string(parts.0) {
                    Err(port_error_message(value@, "local"@))
                } else {
                    Ok(
                        ForwardPort {
                            local_port: u16_value(parts.0) as u16,
                            container_port: u16_value(parts.1) as u16,
                            protocol: PortProtocol::Tcp,
                        },
                    )
                }
            }
        },
    }
}

fn port_error(value: &String, side: &str) -> (r: DevcontainerError)
    ensures
        r is Configuration,
        r.message_spec() == port_error_message(value@, side@),
{
    let mut m = String::from_str("Invalid forward port value '");
    m.append(value.as_str());
    m.append("': ");
    m.append(side);
    m.append(" port is not a valid port number");
    proof {
        assert(m@ =~= port_error_message(value@, side@));
    }
    DevcontainerError::Configuration(m)
}

impl ForwardPortDefinition {
    /// Normalize this definition into a forward port, exactly as
    /// [`resolve_port_spec`] describes, with a configuration error carrying
    /// the message [`resolve_port_spec`] gives on failure.
    pub fn to_forward_port(&self) -> (r: Result<ForwardPort, DevcontainerError>)
        ensures
            r is Ok <==> resolve_port_spec(*self) is Ok,
            r matches Ok(p) ==> resolve_port_spec(*self) == Ok::<ForwardPort, Seq<char>>(p),
            r matches Err(e) ==> e is Configuration && resolve_port_spec(*self)
                == Err::<ForwardPort, Seq<char>>(e.message_spec()),
    {
        match self {
            ForwardPortDefinition::Number(p) => Ok(
                ForwardPort { local_port: *p, container_port: *p, protocol: PortProtocol::Tcp },
            ),
            ForwardPortDefinition::String(value) => {
                let vchars = str_to_chars(value.as_str());
                let trimmed = trim_chars(&vchars);
                let n = trimmed.len();
                if n == 0 {
                    return Err(
                        DevcontainerError::Configuration(
                            String::from_str("Invalid forward port value '': value must not be empty"),
                        ),
                    );
                }
                let mut k: usize = 0;
                while k < n && trimmed[k] != ':'
                    invariant
                        n == trimmed@.len(),
                        k <= n,
                        forall|j: int| 0 <= j < k ==> trimmed@[j] != ':',
                    decreases n - k,
                {
                    k = k + 1;
                }
                proof {
                    lemma_split_first_colon(trimmed@, k as int);
                }
                let (local_v, container_v) = if k == n {
                    (sub_vec(&trimmed, 0, n), sub_vec(&trimmed, 0, n))
                } else {
                    (sub_vec(&trimmed, 0, k), sub_vec(&trimmed, k + 1, n))
                };
                proof {
                    if k == n {
                        assert(trimmed@.subrange(0, n as int) =~= trimmed@);
                    } else {
                        assert(trimmed@.subrange(0, k as int) =~= trimmed@.take(k as int));
                        assert(trimmed@.subrange(k + 1, n as int) =~= trimmed@.skip(k + 1));
                    }
                }
                let container_port = match parse_u16(&container_v) {
                    Some(p) => p,
                    None => {
                        return Err(port_error(value, "container"));
                    },
                };
                let local_port = match parse_u16(&local_v) {
                    Some(p) => p,
                    None => {
                        return Err(port_error(value, "local"));
                    },
                };
                Ok(ForwardPort { local_port, container_port, protocol: PortProtocol::Tcp })
            },
        }
    }
}

/// Law: a bare port number `P` resolves to local = container = P over TCP.
pub proof fn lemma_port_bare_number(p: u16)
    ensures
        resolve_port_spec(ForwardPortDefinition::Number(p)) == Ok::<ForwardPort, Seq<char>>(
            ForwardPort { local_port: p, container_port: p, protocol: PortProtocol::Tcp },
        ),
{
}

/// Law: a forward-port string `"L:C"`, with `L` and `C` valid port numbers,
/// resolves to local = L, container = C, protocol = TCP.
pub proof fn lemma_port_round_trip(value: String, l: Seq<char>, c: Seq<char>)
    requires
        value@ == l + seq![':'] + c,
        is_u16_string(l),
        is_u16_string(c),
    ensures
        resolve_port_spec(ForwardPortDefinition::String(value)) == Ok::<ForwardPort, Seq<char>>(
            ForwardPort {
                local_port: u16_value(l) as u16,
                container_port: u16_value(c) as u16,
                protocol: PortProtocol::Tcp,
            },
        ),
{
    let s = value@;
    let ul = crate::strutil::unsigned_part(l);
    let uc = crate::strutil::unsigned_part(c);
    assert forall|i: int| 0 <= i < s.len() implies !crate::strutil::is_space(s[i]) by {
        if i < l.len() {
            if l.len() > 0 && l[0] == '+' {
                if i > 0 {
                    assert(ul[i - 1] == l[i]);
                }
            } else {
                assert(ul[i] == l[i]);
            }
        } else if i == l.len() {
        } else {
            let j = i - l.len() - 1;
            if c.len() > 0 && c[0] == '+' {
                if j > 0 {
                    assert(uc[j - 1] == c[j]);
                }
            } else {
                assert(uc[j] == c[j]);
            }
        }
    }
    crate::strutil::lemma_trim_id(s);
    assert forall|j: int| 0 <= j < l.len() implies s[j] != ':' by {
        if l.len() > 0 && l[0] == '+' {
            if j > 0 {
                assert(ul[j - 1] == l[j]);
            }
        } else {
            assert(ul[j] == l[j]);
        }
    }
    assert(s[l.len() as int] == ':');
    lemma_split_first_colon(s, l.len() as int);
    assert(s.take(l.len() as int) =~= l);
    assert(s.skip(l.len() as int + 1) =~= c);
}

/// Law: an empty (or all-whitespace) forward-port string fails resolution
/// with the configuration error that names the empty value.
pub proof fn lemma_empty_port_fails(value: String)
    requires
        trim_spec(value@).len() == 0,
    ensures
        resolve_port_spec(ForwardPortDefinition::String(value)) == Err::<ForwardPort, Seq<char>>(
            empty_port_message(),
        ),
{
}

/// Law: a colon-free forward-port string that is not a valid port number
/// fails resolution with the configuration error naming the offending value
/// and the container side, which is parsed first.
pub proof fn lemma_malformed_port_fails(value: String)
    requires
        trim_spec(value@).len() > 0,
        !contains_seq(trim_spec(value@), seq![':']),
        !is_u16_string(trim_spec(value@)),
    ensures
        resolve_port_spec(ForwardPortDefinition::String(value)) == Err::<ForwardPort, Seq<char>>(
            port_error_message(value@, "container"@),
        ),
{
    let t = trim_spec(value@);
    assert forall|j: int| 0 <= j < t.len() implies t[j] != ':' by {
        if t[j] == ':' {
            assert(t.subrange(j, j + 1) =~= seq![':']);
            assert(crate::strutil::has_sub_at(t, seq![':'], j));
        }
    }
    lemma_split_first_colon(t, t.len() as int);
}


/// Replace the two workspace placeholders in `input`: first
/// `${localWorkspaceFolderBasename}` by the root's final path component
/// (left untouched when the root has none), then `${localWorkspaceFolder}`
/// by the root itself.
pub open spec fn substitute_placeholders_spec(input: Seq<char>, root: Seq<char>) -> Seq<char> {
    let step1 = match basename_spec(root) {
        Some(b) => replace_seq(input, "${localWorkspaceFolderBasename}"@, b),
        None => input,
    };
    replace_seq(step1, "${localWorkspaceFolder}"@, root)
}

/// Substitute the workspace placeholders of [`substitute_placeholders_spec`].
pub fn resolve_local_workspace_placeholders(input: &str, workspace_root: &str) -> (r: String)
    ensures
        r@ == substitute_placeholders_spec(input@, workspace_root@),
{
    proof {
        reveal_strlit("${localWorkspaceFolderBasename}");
        reveal_strlit("${localWorkspaceFolder}");
    }
    let step1: String = match path_basename(workspace_root) {
        Some(b) => replace_str(input, "${localWorkspaceFolderBasename}", b.as_str()),
        None => String::from_str(input),
    };
    replace_str(step1.as_str(), "${localWorkspaceFolder}", workspace_root)
}

/// Normalized configuration after resolving overrides and defaults.
#[derive(Debug, Clone, PartialEq, Eq)]
pub struct ResolvedConfig {
    /// Non-empty project name: override, else document name, else workspace
    /// directory basename, else a fixed default.
    pub project_name: String,
    /// Absolute host workspace folder.
    pub workspace_folder: String,
    /// Container-side workspace folder, set only when the document's value
    /// is container-absolute.
    pub container_workspace_folder: Option<String>,
    pub config_path: String,
    pub image_reference: Option<String>,
    /// Dockerfile path, resolved relative to the configuration file's
    /// directory.
    pub dockerfile: Option<String>,
    /// Feature identifier paired with its options, serialized as JSON text.
    pub features: Vec<(String, String)>,
    pub forward_ports: Vec<ForwardPort>,
    pub post_create_command: Option<CommandDefinition>,
    pub post_attach_command: Option<CommandDefinition>,
}

/// Overrides applied on top of the configuration source.
#[derive(Debug, Clone, PartialEq, Eq)]
pub struct ConfigOverrides {
    pub project_name: Option<String>,
    pub workspace_folder: Option<String>,
    pub image_reference: Option<String>,
}

impl Default for ConfigOverrides {
    /// No overrides.
    fn default() -> (r: Self)
        ensures
            r.project_name is None,
            r.workspace_folder is None,
            r.image_reference is None,
    {
        ConfigOverrides { project_name: None, workspace_folder: None, image_reference: None }
    }
}

impl ConfigOverrides {
    /// Set the workspace-folder override.
    pub fn with_workspace_folder(self, path: String) -> (r: Self)
        ensures
            r.workspace_folder matches Some(p) && p == path,
            r.project_name == self.project_name,
            r.image_reference == self.image_reference,
    {
        ConfigOverrides { workspace_folder: Some(path), ..self }
    }

    /// Set the project-name override.
    pub fn with_project_name(self, name: &str) -> (r: Self)
        ensures
            r.project_name matches Some(p) && p@ == name@,
            r.workspace_folder == self.workspace_folder,
            r.image_reference == self.image_reference,
    {
        ConfigOverrides { project_name: Some(String::from_str(name)), ..self }
    }
}

/// Source of configuration data: a workspace directory searched for the
/// configuration document, or an explicit file path.
#[derive(Debug, Clone, PartialEq, Eq)]
pub enum ConfigSource {
    Workspace(String),
    ExplicitFile(String),
}

impl ConfigSource {
    /// The first location the document is looked for.
    pub open spec fn primary_candidate_spec(&self) -> Seq<char> {
        match self {
            ConfigSource::Workspace(p) => join_path_spec(
                join_path_spec(p@, ".devcontainer"@),
                "devcontainer.json"@,
            ),
            ConfigSource::ExplicitFile(p) => p@,
        }
    }

    /// The fallback location, for a workspace source.
    pub open spec fn fallback_candidate_spec(&self) -> Option<Seq<char>> {
        match self {
            ConfigSource::Workspace(p) => Some(join_path_spec(p@, "devcontainer.json"@)),
            ConfigSource::ExplicitFile(_) => None,
        }
    }

    /// The first location the document is looked for: for a workspace, the
    /// document under its `.devcontainer` directory; for an explicit file,
    /// the file itself.
    pub fn primary_candidate(&self) -> (r: String)
        ensures
            r@ == self.primary_candidate_spec(),
    {
        match self {
            ConfigSource::Workspace(p) => {
                let d = join_path(p.as_str(), ".devcontainer");
                join_path(d.as_str(), "devcontainer.json")
            },
            ConfigSource::ExplicitFile(p) => p.clone(),
        }
    }

    /// The fallback location: a document at the workspace root. An explicit
    /// file has no fallback.
    pub fn fallback_candidate(&self) -> (r: Option<String>)
        ensures
            view_opt(r) == self.fallback_candidate_spec(),
    {
        match self {
            ConfigSource::Workspace(p) => Some(join_path(p.as_str(), "devcontainer.json")),
            ConfigSource::ExplicitFile(_) => None,
        }
    }

    /// Pick the configuration file path, given whether each candidate exists
    /// on disk: the primary candidate wins; a workspace source falls back to
    /// its secondary candidate; otherwise the lookup fails with a
    /// configuration error naming the source.
    pub fn resolve_path(&self, primary_exists: bool, fallback_exists: bool) -> (r: Result<
        String,
        DevcontainerError,
    >)
        ensures
            primary_exists ==> (r matches Ok(p) && p@ == self.primary_candidate_spec()),
            !primary_exists && self.fallback_candidate_spec() is Some && fallback_exists
                ==> (r matches Ok(p) && Some(p@) == self.fallback_candidate_spec()),
            !primary_exists && (self.fallback_candidate_spec() is None || !fallback_exists)
                ==> r is Err && r->Err_0 is Configuration,
            !primary_exists ==> (match self {
                ConfigSource::Workspace(p) => fallback_exists || (r matches Err(e)
                    && e.message_spec() == "Failed to locate devcontainer.json under "@ + p@),
                ConfigSource::ExplicitFile(p) => r matches Err(e) && e.message_spec()
                    == "Configuration file "@ + p@ + " does not exist"@,
            }),
    {
        if primary_exists {
            return Ok(self.primary_candidate());
        }
        match self {
            ConfigSource::Workspace(p) => {
                if fallback_exists {
                    Ok(join_path(p.as_str(), "devcontainer.json"))
                } else {
                    let mut m = String::from_str("Failed to locate devcontainer.json under ");
                    m.append(p.as_str());
                    proof {
                        assert(m@ =~= "Failed to locate devcontainer.json under "@ + p@);
                    }
                    Err(DevcontainerError::Configuration(m))
                }
            },
            ConfigSource::ExplicitFile(p) => {
                let mut m = String::from_str("Configuration file ");
                m.append(p.as_str());
                m.append(" does not exist");
                proof {
                    assert(m@ =~= "Configuration file "@ + p@ + " does not exist"@);
                }
                Err(DevcontainerError::Configuration(m))
            },
        }
    }
}

/// Copy an optional string.
fn clone_opt_string(o: &Option<String>) -> (r: Option<String>)
    ensures
        r == *o,
{
    match o {
        Some(s) => Some(s.clone()),
        None => None,
    }
}

/// An optional string with the empty string counting as absent.
fn nonempty_string(o: Option<String>) -> (r: Option<String>)
    ensures
        view_opt(r) == nonempty_opt(view_opt(o)),
{
    match o {
        Some(s) => {
            if s.as_str().is_empty() {
                None
            } else {
                Some(s)
            }
        },
        None => None,
    }
}

/// The ports resolved from `defs[i..]`, or the first error among them.
pub open spec fn resolve_ports_from(defs: Seq<ForwardPortDefinition>, i: int) -> Result<
    Seq<ForwardPort>,
    Seq<char>,
>
    decreases defs.len() - i,
{
    if i < 0 || i >= defs.len() {
        Ok(Seq::<ForwardPort>::empty())
    } else {
        match resolve_port_spec(defs[i]) {
            Err(m) => Err(m),
            Ok(p) => match resolve_ports_from(defs, i + 1) {
                Err(m) => Err(m),
                Ok(rest) => Ok(seq![p] + rest),
            },
        }
    }
}

/// All forward-port definitions resolved in order, or the first error.
pub open spec fn resolve_ports_spec(defs: Seq<ForwardPortDefinition>) -> Result<
    Seq<ForwardPort>,
    Seq<char>,
> {
    resolve_ports_from(defs, 0)
}

/// The ports of the first `i` definitions, each of which must resolve.
pub open spec fn prefix_ports(defs: Seq<ForwardPortDefinition>, i: int) -> Seq<ForwardPort> {
    Seq::new(i as nat, |j: int| resolve_port_spec(defs[j])->Ok_0)
}

proof fn lemma_ports_from(defs: Seq<ForwardPortDefinition>, i: int)
    requires
        0 <= i <= defs.len(),
        forall|j: int| 0 <= j < i ==> resolve_port_spec(defs[j]) is Ok,
    ensures
        resolve_ports_spec(defs) is Ok <==> resolve_ports_from(defs, i) is Ok,
        resolve_ports_from(defs, i) matches Err(m) ==> resolve_ports_spec(defs) == Err::<
            Seq<ForwardPort>,
            Seq<char>,
        >(m),
        resolve_ports_from(defs, i) matches Ok(rest) ==> resolve_ports_spec(defs) == Ok::<
            Seq<ForwardPort>,
            Seq<char>,
        >(prefix_ports(defs, i) + rest),
    decreases i,
{
    if i == 0 {
        match resolve_ports_from(defs, 0) {
            Ok(rest) => {
                assert(prefix_ports(defs, 0) + rest =~= rest);
            },
            Err(_) => {},
        }
    } else {
        lemma_ports_from(defs, i - 1);
        let p = resolve_port_spec(defs[i - 1])->Ok_0;
        match resolve_ports_from(defs, i) {
            Ok(rest) => {
                assert(resolve_ports_from(defs, i - 1) == Ok::<Seq<ForwardPort>, Seq<char>>(
                    seq![p] + rest,
                ));
                assert(prefix_ports(defs, i - 1) + (seq![p] + rest) =~= prefix_ports(defs, i)
                    + rest);
            },
            Err(m) => {
                assert(resolve_ports_from(defs, i - 1) == Err::<Seq<ForwardPort>, Seq<char>>(m));
            },
        }
    }
}

/// Resolve every forward-port definition in order, stopping at the first
/// failure, exactly as [`resolve_ports_spec`] describes.
pub fn resolve_forward_ports(defs: &Vec<ForwardPortDefinition>) -> (r: Result<
    Vec<ForwardPort>,
    DevcontainerError,
>)
    ensures
        r is Ok <==> resolve_ports_spec(defs@) is Ok,
        r matches Ok(ps) ==> resolve_ports_spec(defs@) == Ok::<Seq<ForwardPort>, Seq<char>>(ps@),
        r matches Err(e) ==> e is Configuration && resolve_ports_spec(defs@) == Err::<
            Seq<ForwardPort>,
            Seq<char>,
        >(e.message_spec()),
{
    let n = defs.len();
    let mut out: Vec<ForwardPort> = Vec::new();
    let mut i: usize = 0;
    while i < n
        invariant
            n == defs@.len(),
            i <= n,
            out@.len() == i,
            forall|j: int| 0 <= j < i ==> resolve_port_spec(defs@[j]) is Ok,
            out@ == prefix_ports(defs@, i as int),
        decreases n - i,
    {
        let def = &defs[i];
        match def.to_forward_port() {
            Ok(p) => {
                out.push(p);
                i = i + 1;
                proof {
                    assert(out@ =~= prefix_ports(defs@, i as int));
                }
            },
            Err(e) => {
                proof {
                    lemma_ports_from(defs@, i as int);
                }
                return Err(e);
            },
        }
    }
    proof {
        lemma_ports_from(defs@, n as int);
        assert(prefix_ports(defs@, n as int) + Seq::<ForwardPort>::empty() =~= prefix_ports(
            defs@,
            n as int,
        ));
    }
    Ok(out)
}


/// The directory holding the configuration file: its parent, or `.` when it
/// has none.
pub open spec fn config_dir_spec(config_path: Seq<char>) -> Seq<char> {
    match parent_spec(config_path) {
        Some(p) => p,
        None => "."@,
    }
}

/// The first present value.
pub open spec fn or_opt(a: Option<Seq<char>>, b: Option<Seq<char>>) -> Option<Seq<char>> {
    if a is Some {
        a
    } else {
        b
    }
}

/// An optional string value, with an empty string counting as absent.
pub open spec fn nonempty_opt(o: Option<Seq<char>>) -> Option<Seq<char>> {
    match o {
        Some(s) => if s.len() > 0 {
            Some(s)
        } else {
            None
        },
        None => None,
    }
}

/// Project name precedence: override, else document name, else the workspace
/// root's final path component, else the fixed fallback `devcontainer`. An
/// empty override or document name counts as absent, so the name is never
/// empty.
pub open spec fn project_name_spec(
    ov: Option<Seq<char>>,
    doc: Option<Seq<char>>,
    root: Seq<char>,
) -> Seq<char> {
    match nonempty_opt(ov) {
        Some(n) => n,
        None => match nonempty_opt(doc) {
            Some(n) => n,
            None => match basename_spec(root) {
                Some(b) => b,
                None => "devcontainer"@,
            },
        },
    }
}

/// Law: the project name is never empty, whatever the override, document
/// name and workspace root are.
pub proof fn lemma_project_name_nonempty(
    ov: Option<Seq<char>>,
    doc: Option<Seq<char>>,
    root: Seq<char>,
)
    ensures
        project_name_spec(ov, doc, root).len() > 0,
{
    reveal_strlit("devcontainer");
}

/// Host workspace folder precedence: override, else the document value when
/// it is not container-absolute (substituted, then joined onto the root),
/// else the workspace root itself.
pub open spec fn host_workspace_folder_spec(
    ov: Option<Seq<char>>,
    docw: Option<Seq<char>>,
    root: Seq<char>,
) -> Seq<char> {
    if ov is Some {
        ov->0
    } else {
        match docw {
            Some(w) => if !is_container_absolute(w) {
                join_path_spec(root, substitute_placeholders_spec(w, root))
            } else {
                root
            },
            None => root,
        }
    }
}

/// The container-side workspace folder: the document value, substituted,
/// only when that value is container-absolute.
pub open spec fn container_workspace_folder_spec(
    docw: Option<Seq<char>>,
    root: Seq<char>,
) -> Option<Seq<char>> {
    match docw {
        Some(w) => if is_container_absolute(w) {
            Some(substitute_placeholders_spec(w, root))
        } else {
            None
        },
        None => None,
    }
}

/// The dockerfile path, resolved relative to the configuration file's
/// directory unless already absolute.
pub open spec fn dockerfile_spec(
    docdf: Option<Seq<char>>,
    config_dir: Seq<char>,
) -> Option<Seq<char>> {
    match docdf {
        Some(w) => Some(join_path_spec(config_dir, w)),
        None => None,
    }
}

/// The workspace root a resolution works under: the workspace directory for
/// a workspace source, the configuration file's directory for an explicit
/// file.
pub open spec fn workspace_root_spec(source: ConfigSource, config_path: Seq<char>) -> Seq<char> {
    match source {
        ConfigSource::Workspace(p) => p@,
        ConfigSource::ExplicitFile(_) => config_dir_spec(config_path),
    }
}

fn config_dir_of(config_path: &str) -> (r: String)
    ensures
        r@ == config_dir_spec(config_path@),
{
    match path_parent(config_path) {
        Some(p) => p,
        None => String::from_str("."),
    }
}

/// Resolves a [`DevcontainerConfig`] into a [`ResolvedConfig`].
#[derive(Debug, Clone, PartialEq, Eq)]
pub struct ConfigResolver {
    pub source: ConfigSource,
    pub overrides: ConfigOverrides,
}

impl ConfigResolver {
    /// A resolver over `source` with no overrides.
    pub fn new(source: ConfigSource) -> (r: Self)
        ensures
            r.source == source,
            r.overrides.project_name is None,
            r.overrides.workspace_folder is None,
            r.overrides.image_reference is None,
    {
        ConfigResolver {
            source,
            overrides: ConfigOverrides {
                project_name: None,
                workspace_folder: None,
                image_reference: None,
            },
        }
    }

    /// Replace the overrides.
    pub fn with_overrides(self, overrides: ConfigOverrides) -> (r: Self)
        ensures
            r.source == self.source,
            r.overrides == overrides,
    {
        ConfigResolver { overrides, ..self }
    }

    /// The normalization relation: `rc` is the resolution of `doc` under
    /// this resolver's source and overrides, field for field.
    pub open spec fn resolves_to(
        &self,
        config_path: Seq<char>,
        doc: DevcontainerConfig,
        rc: ResolvedConfig,
    ) -> bool {
        let root = workspace_root_spec(self.source, config_path);
        &&& rc.project_name@ == project_name_spec(
            view_opt(self.overrides.project_name),
            view_opt(doc.name),
            root,
        )
        &&& rc.project_name@.len() > 0
        &&& rc.workspace_folder@ == host_workspace_folder_spec(
            view_opt(self.overrides.workspace_folder),
            view_opt(doc.workspace_folder),
            root,
        )
        &&& view_opt(rc.container_workspace_folder) == container_workspace_folder_spec(
            view_opt(doc.workspace_folder),
            root,
        )
        &&& rc.config_path@ == config_path
        &&& view_opt(rc.image_reference) == or_opt(
            view_opt(self.overrides.image_reference),
            view_opt(doc.image),
        )
        &&& view_opt(rc.dockerfile) == dockerfile_spec(
            view_opt(doc.docker_file),
            config_dir_spec(config_path),
        )
        &&& rc.features == doc.features
        &&& rc.forward_ports@ == resolve_ports_spec(doc.forward_ports@)->Ok_0
        &&& rc.post_create_command == doc.post_create_command
        &&& rc.post_attach_command == doc.post_attach_command
    }

    /// Normalize an already-parsed document under this resolver's source and
    /// overrides. Fails exactly when a forward-port definition is invalid,
    /// with that definition's configuration error; otherwise every field of
    /// the result is the one its spec function gives.
    pub fn resolve_document(&self, config_path: &str, doc: DevcontainerConfig) -> (r: Result<
        ResolvedConfig,
        DevcontainerError,
    >)
        ensures
            r is Ok <==> resolve_ports_spec(doc.forward_ports@) is Ok,
            r matches Err(e) ==> e is Configuration && resolve_ports_spec(doc.forward_ports@)
                == Err::<Seq<ForwardPort>, Seq<char>>(e.message_spec()),
            r matches Ok(rc) ==> self.resolves_to(config_path@, doc, rc),
    {
        let DevcontainerConfig {
            name,
            image,
            docker_file,
            workspace_folder: config_workspace_folder,
            features,
            forward_ports: raw_forward_ports,
            post_create_command,
            post_attach_command,
        } = doc;

        let forward_ports = match resolve_forward_ports(&raw_forward_ports) {
            Ok(ps) => ps,
            Err(e) => {
                return Err(e);
            },
        };

        let config_dir = config_dir_of(config_path);

        let workspace_root: String = match &self.source {
            ConfigSource::Workspace(p) => p.clone(),
            ConfigSource::ExplicitFile(_) => config_dir.clone(),
        };

        let dockerfile: Option<String> = match &docker_file {
            Some(w) => Some(join_path(config_dir.as_str(), w.as_str())),
            None => None,
        };

        let workspace_folder: String = match clone_opt_string(&self.overrides.workspace_folder) {
            Some(w) => w,
            None => {
                match &config_workspace_folder {
                    Some(w) => {
                        let wchars = str_to_chars(w.as_str());
                        if container_absolute(&wchars) {
                            workspace_root.clone()
                        } else {
                            let substituted = resolve_local_workspace_placeholders(
                                w.as_str(),
                                workspace_root.as_str(),
                            );
                            join_path(workspace_root.as_str(), substituted.as_str())
                        }
                    },
                    None => workspace_root.clone(),
                }
            },
        };

        let container_workspace_folder: Option<String> = match &config_workspace_folder {
            Some(w) => {
                let wchars = str_to_chars(w.as_str());
                if container_absolute(&wchars) {
                    Some(resolve_local_workspace_placeholders(
                        w.as_str(),
                        workspace_root.as_str(),
                    ))
                } else {
                    None
                }
            },
            None => None,
        };

        let project_name: String = match nonempty_string(clone_opt_string(
            &self.overrides.project_name,
        )) {
            Some(n) => n,
            None => match nonempty_string(name) {
                Some(n) => n,
                None => match path_basename(workspace_root.as_str()) {
                    Some(b) => b,
                    None => String::from_str("devcontainer"),
                },
            },
        };

        let image_reference: Option<String> = match clone_opt_string(
            &self.overrides.image_reference,
        ) {
            Some(i) => Some(i),
            None => image,
        };

        proof {
            lemma_project_name_nonempty(
                view_opt(self.overrides.project_name),
                view_opt(doc.name),
                workspace_root_spec(self.source, config_path@),
            );
        }
        Ok(
            ResolvedConfig {
                project_name,
                workspace_folder,
                container_workspace_folder,
                config_path: String::from_str(config_path),
                image_reference,
                dockerfile,
                features,
                forward_ports,
                post_create_command,
                post_attach_command,
            },
        )
    }
}


/// Law: resolution is idempotent in the sense of determinism — two
/// resolutions of the same document under the same source, overrides and
/// configuration path agree field for field.
pub proof fn lemma_resolve_deterministic(
    resolver: ConfigResolver,
    config_path: Seq<char>,
    doc: DevcontainerConfig,
    r1: ResolvedConfig,
    r2: ResolvedConfig,
)
    requires
        resolver.resolves_to(config_path, doc, r1),
        resolver.resolves_to(config_path, doc, r2),
    ensures
        r1.project_name@ == r2.project_name@,
        r1.workspace_folder@ == r2.workspace_folder@,
        view_opt(r1.container_workspace_folder) == view_opt(r2.container_workspace_folder),
        r1.config_path@ == r2.config_path@,
        view_opt(r1.image_reference) == view_opt(r2.image_reference),
        view_opt(r1.dockerfile) == view_opt(r2.dockerfile),
        r1.features == r2.features,
        r1.forward_ports@ == r2.forward_ports@,
        r1.post_create_command == r2.post_create_command,
        r1.post_attach_command == r2.post_attach_command,
{
}


fn field_error(key: &str, expected: &str) -> (r: DevcontainerError)
    ensures
        r is Configuration,
        r.message_spec() == "devcontainer.json field '"@ + key@ + "' "@ + expected@,
{
    let mut m = String::from_str("devcontainer.json field '");
    m.append(key);
    m.append("' ");
    m.append(expected);
    proof {
        assert(m@ =~= "devcontainer.json field '"@ + key@ + "' "@ + expected@);
    }
    DevcontainerError::Configuration(m)
}

/// An optional string-valued field of the document.
fn opt_string_field(doc: &serde_json::Value, key: &str) -> (r: Result<
    Option<String>,
    DevcontainerError,
>)
    ensures
        r matches Err(e) ==> e is Configuration,
{
    match crate::jsonio::get_field(doc, key) {
        None => Ok(None),
        Some(v) => match crate::jsonio::value_as_str(&v) {
            Some(s) => Ok(Some(s)),
            None => Err(field_error(key, "must be a string")),
        },
    }
}

/// The forward-port definitions of the document: each entry a port number
/// in range, or a string.
fn extract_forward_ports(doc: &serde_json::Value) -> (r: Result<
    Vec<ForwardPortDefinition>,
    DevcontainerError,
>)
    ensures
        r matches Err(e) ==> e is Configuration,
{
    let arr = match crate::jsonio::get_field(doc, "forwardPorts") {
        None => {
            return Ok(Vec::new());
        },
        Some(v) => match crate::jsonio::value_as_array(&v) {
            Some(a) => a,
            None => {
                return Err(field_error("forwardPorts", "must be an array"));
            },
        },
    };
    let mut out: Vec<ForwardPortDefinition> = Vec::new();
    let n = arr.len();
    let mut i: usize = 0;
    while i < n
        invariant
            n == arr@.len(),
            i <= n,
        decreases n - i,
    {
        let elem = &arr[i];
        match crate::jsonio::value_as_u64(elem) {
            Some(p) => {
                if p > 65535 {
                    return Err(
                        field_error("forwardPorts", "entries must be port numbers or strings"),
                    );
                }
                out.push(ForwardPortDefinition::Number(p as u16));
            },
            None => match crate::jsonio::value_as_str(elem) {
                Some(s) => {
                    out.push(ForwardPortDefinition::String(s));
                },
                None => {
                    return Err(
                        field_error("forwardPorts", "entries must be port numbers or strings"),
                    );
                },
            },
        }
        i = i + 1;
    }
    Ok(out)
}

/// The features of the document: each option value kept as JSON text.
fn extract_features(doc: &serde_json::Value) -> (r: Result<
    Vec<(String, String)>,
    DevcontainerError,
>)
    ensures
        r matches Err(e) ==> e is Configuration,
{
    let entries = match crate::jsonio::get_field(doc, "features") {
        None => {
            return Ok(Vec::new());
        },
        Some(v) => match crate::jsonio::value_entries(&v) {
            Some(es) => es,
            None => {
                return Err(field_error("features", "must be an object"));
            },
        },
    };
    let mut out: Vec<(String, String)> = Vec::new();
    let n = entries.len();
    let mut i: usize = 0;
    while i < n
        invariant
            n == entries@.len(),
            i <= n,
        decreases n - i,
    {
        let entry = &entries[i];
        let text = crate::jsonio::value_to_json_text(&entry.1);
        out.push((entry.0.clone(), text));
        i = i + 1;
    }
    Ok(out)
}

/// A command value: a shell string or an argument array of strings.
fn extract_command_args(v: &serde_json::Value, key: &str) -> (r: Result<
    Option<CommandArgs>,
    DevcontainerError,
>)
    ensures
        r matches Err(e) ==> e is Configuration,
{
    match crate::jsonio::value_as_str(v) {
        Some(s) => {
            return Ok(Some(CommandArgs::String(s)));
        },
        None => {},
    }
    let arr = match crate::jsonio::value_as_array(v) {
        Some(a) => a,
        None => {
            return Ok(None);
        },
    };
    let mut args: Vec<String> = Vec::new();
    let n = arr.len();
    let mut i: usize = 0;
    while i < n
        invariant
            n == arr@.len(),
            i <= n,
        decreases n - i,
    {
        let elem = &arr[i];
        match crate::jsonio::value_as_str(elem) {
            Some(s) => {
                args.push(s);
            },
            None => {
                return Err(field_error(key, "array entries must be strings"));
            },
        }
        i = i + 1;
    }
    Ok(Some(CommandArgs::Array(args)))
}

/// An optional hook-command field: a single command, or a named map of
/// parallel commands.
fn extract_command(doc: &serde_json::Value, key: &str) -> (r: Result<
    Option<CommandDefinition>,
    DevcontainerError,
>)
    ensures
        r matches Err(e) ==> e is Configuration,
{
    let v = match crate::jsonio::get_field(doc, key) {
        None => {
            return Ok(None);
        },
        Some(v) => v,
    };
    match extract_command_args(&v, key) {
        Ok(Some(args)) => {
            return Ok(Some(CommandDefinition::Single(args)));
        },
        Ok(None) => {},
        Err(e) => {
            return Err(e);
        },
    }
    let entries = match crate::jsonio::value_entries(&v) {
        Some(es) => es,
        None => {
            return Err(
                field_error(key, "must be a string, an array of strings, or an object"),
            );
        },
    };
    let mut named: Vec<(String, CommandArgs)> = Vec::new();
    let n = entries.len();
    let mut i: usize = 0;
    while i < n
        invariant
            n == entries@.len(),
            i <= n,
        decreases n - i,
    {
        let entry = &entries[i];
        match extract_command_args(&entry.1, key) {
            Ok(Some(args)) => {
                named.push((entry.0.clone(), args));
            },
            Ok(None) => {
                return Err(
                    field_error(key, "object entries must be strings or arrays of strings"),
                );
            },
            Err(e) => {
                return Err(e);
            },
        }
        i = i + 1;
    }
    Ok(Some(CommandDefinition::Parallel(named)))
}

/// Map a parsed document value into the typed configuration. Every error is
/// a configuration error naming the offending field.
pub fn extract_document(doc: &serde_json::Value) -> (r: Result<
    DevcontainerConfig,
    DevcontainerError,
>)
    ensures
        r matches Err(e) ==> e is Configuration,
{
    let name = match opt_string_field(doc, "name") {
        Ok(v) => v,
        Err(e) => {
            return Err(e);
        },
    };
    let image = match opt_string_field(doc, "image") {
        Ok(v) => v,
        Err(e) => {
            return Err(e);
        },
    };
    let docker_file = match opt_string_field(doc, "dockerFile") {
        Ok(v) => v,
        Err(e) => {
            return Err(e);
        },
    };
    let workspace_folder = match opt_string_field(doc, "workspaceFolder") {
        Ok(v) => v,
        Err(e) => {
            return Err(e);
        },
    };
    let features = match extract_features(doc) {
        Ok(v) => v,
        Err(e) => {
            return Err(e);
        },
    };
    let forward_ports = match extract_forward_ports(doc) {
        Ok(v) => v,
        Err(e) => {
            return Err(e);
        },
    };
    let post_create_command = match extract_command(doc, "postCreateCommand") {
        Ok(v) => v,
        Err(e) => {
            return Err(e);
        },
    };
    let post_attach_command = match extract_command(doc, "postAttachCommand") {
        Ok(v) => v,
        Err(e) => {
            return Err(e);
        },
    };
    Ok(
        DevcontainerConfig {
            name,
            image,
            docker_file,
            workspace_folder,
            features,
            forward_ports,
            post_create_command,
            post_attach_command,
        },
    )
}

/// Validate a parsed document against the bundled schema. Violations are
/// aggregated into one configuration error; a document whose only failure
/// is the root image/dockerfile disjunction matching several branches is
/// accepted. The decision over the violation list is
/// [`classify_violations`], whose contract states it exactly.
pub fn validate_document(doc: &serde_json::Value) -> (r: Result<(), DevcontainerError>)
    ensures
        r matches Err(e) ==> e is Configuration,
{
    let schema_value = match crate::jsonio::parse_json(crate::jsonio::SCHEMA_TEXT) {
        Some(v) => v,
        None => {
            return Err(
                DevcontainerError::Configuration(
                    String::from_str("devcontainer schema is not valid JSON"),
                ),
            );
        },
    };
    let violations = match crate::jsonio::schema_violations(&schema_value, doc) {
        Some(v) => v,
        None => {
            return Err(
                DevcontainerError::Configuration(
                    String::from_str("devcontainer schema failed to compile"),
                ),
            );
        },
    };
    classify_violations(&violations)
}

/// The violation is the soft edge case: the image/dockerfile disjunction at
/// the document root matched more than one branch.
pub open spec fn violation_is_soft(v: crate::jsonio::SchemaViolation) -> bool {
    v.one_of_multiple && v.schema_path@ == "/oneOf"@
}

/// Every violation is the soft case; vacuously true of an empty list.
pub open spec fn all_violations_soft(vs: Seq<crate::jsonio::SchemaViolation>) -> bool {
    forall|i: int| 0 <= i < vs.len() ==> violation_is_soft(vs[i])
}

/// The violations' messages joined with `; `.
pub open spec fn joined_violation_messages(vs: Seq<crate::jsonio::SchemaViolation>) -> Seq<char>
    decreases vs.len(),
{
    if vs.len() == 0 {
        Seq::<char>::empty()
    } else if vs.len() == 1 {
        vs[0].message@
    } else {
        joined_violation_messages(vs.drop_last()) + "; "@ + vs.last().message@
    }
}

/// The error text listing every schema violation.
pub open spec fn schema_error_message(vs: Seq<crate::jsonio::SchemaViolation>) -> Seq<char> {
    "Invalid devcontainer.json: "@ + joined_violation_messages(vs)
}

/// Decide schema validation from the violation list alone: acceptance
/// exactly when every violation is the soft root-disjunction case — in
/// particular when there is none — and otherwise one configuration error
/// whose text aggregates every violation's message.
pub fn classify_violations(violations: &Vec<crate::jsonio::SchemaViolation>) -> (r: Result<
    (),
    DevcontainerError,
>)
    ensures
        r is Ok <==> all_violations_soft(violations@),
        r matches Err(e) ==> e is Configuration && e.message_spec() == schema_error_message(
            violations@,
        ),
{
    let n = violations.len();
    let root_one_of = String::from_str("/oneOf");
    let mut all_soft = true;
    let mut i: usize = 0;
    while i < n
        invariant
            n == violations@.len(),
            i <= n,
            root_one_of@ == "/oneOf"@,
            all_soft == (forall|j: int| 0 <= j < i ==> violation_is_soft(violations@[j])),
        decreases n - i,
    {
        let v = &violations[i];
        if !(v.one_of_multiple && v.schema_path.eq(&root_one_of)) {
            all_soft = false;
        }
        i = i + 1;
    }
    if all_soft {
        return Ok(());
    }
    let mut message = String::from_str("Invalid devcontainer.json: ");
    let mut j: usize = 0;
    proof {
        assert(violations@.take(0) =~= Seq::<crate::jsonio::SchemaViolation>::empty());
        assert(message@ =~= "Invalid devcontainer.json: "@ + joined_violation_messages(
            violations@.take(0),
        ));
    }
    while j < n
        invariant
            n == violations@.len(),
            j <= n,
            message@ == "Invalid devcontainer.json: "@ + joined_violation_messages(
                violations@.take(j as int),
            ),
        decreases n - j,
    {
        if j > 0 {
            message.append("; ");
        }
        message.append(violations[j].message.as_str());
        j = j + 1;
        proof {
            let pre = violations@.take(j as int);
            assert(pre.drop_last() =~= violations@.take(j - 1));
            assert(pre.last() == violations@[j - 1]);
            assert(message@ =~= "Invalid devcontainer.json: "@ + joined_violation_messages(pre));
        }
    }
    proof {
        assert(violations@.take(n as int) =~= violations@);
    }
    Err(DevcontainerError::Configuration(message))
}

impl ConfigResolver {
    /// Resolve a configuration document from its text: bound its nesting
    /// depth (the relaxed parser recurses per level), parse it permissively
    /// (comments and trailing commas tolerated), validate it against the
    /// bundled schema, map it into typed fields, and normalize it under this
    /// resolver's source and overrides. Every failure is a configuration
    /// error; a parse failure carries the parser's message.
    pub fn resolve_text(&self, config_path: &str, text: &str) -> (r: Result<
        ResolvedConfig,
        DevcontainerError,
    >)
        ensures
            r matches Err(e) ==> e is Configuration,
            r matches Ok(rc) ==> rc.config_path@ == config_path@,
            r is Ok ==> crate::strutil::nesting_within(text@, 128)
                && crate::jsonio::json5_parse_error(text@) is None,
            !crate::strutil::nesting_within(text@, 128) ==> (r matches Err(e)
                && e.message_spec() == config_path@
                + " is not valid JSON: structure is nested too deeply"@),
            crate::strutil::nesting_within(text@, 128) ==> (crate::jsonio::json5_parse_error(
                text@,
            ) matches Some(msg) ==> (r matches Err(e) && e.message_spec() == config_path@
                + " is not valid JSON: "@ + msg)),
    {
        if !crate::strutil::nesting_depth_within(text, 128) {
            let mut m = String::from_str(config_path);
            m.append(" is not valid JSON: structure is nested too deeply");
            proof {
                assert(m@ =~= config_path@
                    + " is not valid JSON: structure is nested too deeply"@);
            }
            return Err(DevcontainerError::Configuration(m));
        }
        let document = match crate::jsonio::parse_json5(text) {
            Ok(v) => v,
            Err(msg) => {
                let mut m = String::from_str(config_path);
                m.append(" is not valid JSON: ");
                m.append(msg.as_str());
                proof {
                    assert(m@ =~= config_path@ + " is not valid JSON: "@ + msg@);
                }
                return Err(DevcontainerError::Configuration(m));
            },
        };
        match validate_document(&document) {
            Ok(()) => {},
            Err(e) => {
                return Err(e);
            },
        }
        let doc = match extract_document(&document) {
            Ok(d) => d,
            Err(e) => {
                return Err(e);
            },
        };
        self.resolve_document(config_path, doc)
    }
}


/// Law: a port error names the offending value — the original string occurs
/// verbatim in the error text.
pub proof fn lemma_port_error_names_value(value: Seq<char>, side: Seq<char>)
    ensures
        contains_seq(port_error_message(value, side), value),
{
    let message = port_error_message(value, side);
    let prefix = "Invalid forward port value '"@;
    assert(has_sub_at(message, value, prefix.len() as int)) by {
        assert(message.subrange(prefix.len() as int, prefix.len() as int + value.len() as int) =~= value);
    }
}

} // verus!






