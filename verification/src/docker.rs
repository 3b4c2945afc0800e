//! The reference engine-CLI backend's decision core: naming and mounting
//! decisions, the engine's subcommand vocabulary, and the classification of
//! subprocess outcomes. Spawning the engine executable is external work; a
//! driver performs each command and hands its outcome back to the verified
//! classifiers here.

use vstd::prelude::*;

use crate::config::{strs_view, ResolvedConfig};
use crate::errors::DevcontainerError;
use crate::provider::{
    ExecResult, ProviderBuildContext, ProviderCleanupOptions, ProviderImage, ProviderPreparation,
    RunningContainer, VolumeSpec,
};
use crate::strutil::{
    contains_seq, dec_i32_seq, parent_spec, trim_spec, i32_to_string, path_parent, str_contains,
    str_to_chars, sub_vec, trim_str, chars_to_string,
};

verus! {

/// The reference backend: drives an external container-engine executable.
/// The executable path is kept here; a bare command name is looked up on the
/// search path by the driver.
#[derive(Debug, Clone, PartialEq, Eq)]
pub struct DockerProvider {
    pub docker_path: String,
}

impl DockerProvider {
    /// A backend over the engine executable named `docker`.
    pub fn new() -> (r: Self)
        ensures
            r.docker_path@ == "docker"@,
    {
        DockerProvider { docker_path: String::from_str("docker") }
    }

    /// A backend over an explicit engine executable.
    pub fn from_path(path: &str) -> (r: Self)
        ensures
            r.docker_path@ == path@,
    {
        DockerProvider { docker_path: String::from_str(path) }
    }
}

/// A command name with no path separator: it is looked up on the search
/// path rather than used as a file path.
pub open spec fn is_bare_command_spec(s: Seq<char>) -> bool {
    forall|i: int| 0 <= i < s.len() ==> s[i] != '/'
}

/// Whether the engine path is a bare command name.
pub fn is_bare_command(path: &str) -> (r: bool)
    ensures
        r == is_bare_command_spec(path@),
{
    let v = str_to_chars(path);
    let n = v.len();
    let mut i: usize = 0;
    while i < n
        invariant
            v@ == path@,
            n == v@.len(),
            i <= n,
            forall|j: int| 0 <= j < i ==> v@[j] != '/',
        decreases n - i,
    {
        if v[i] == '/' {
            return false;
        }
        i = i + 1;
    }
    true
}

/// One character of a sanitized name: lowercase ASCII alphanumerics and
/// `-`, `_`, `.` pass; uppercase letters are lowered; anything else becomes
/// a hyphen.
pub open spec fn sanitize_char(c: char) -> char {
    let u = c as u32;
    if (97 <= u && u <= 122) || (48 <= u && u <= 57) {
        c
    } else if 65 <= u && u <= 90 {
        ((u + 32) as u8) as char
    } else if c == '-' || c == '_' || c == '.' {
        c
    } else {
        '-'
    }
}

/// Every character sanitized.
pub open spec fn sanitize_map(s: Seq<char>) -> Seq<char> {
    Seq::new(s.len(), |i: int| sanitize_char(s[i]))
}

/// `s` with leading hyphens removed.
pub open spec fn strip_dashes_front(s: Seq<char>) -> Seq<char>
    decreases s.len(),
{
    if s.len() > 0 && s[0] == '-' {
        strip_dashes_front(s.skip(1))
    } else {
        s
    }
}

/// `s` with trailing hyphens removed.
pub open spec fn strip_dashes_back(s: Seq<char>) -> Seq<char>
    decreases s.len(),
{
    if s.len() > 0 && s.last() == '-' {
        strip_dashes_back(s.drop_last())
    } else {
        s
    }
}

/// The project slug of a name: characters sanitized, hyphens stripped from
/// both ends, with a fixed non-empty fallback.
pub open spec fn sanitize_spec(s: Seq<char>) -> Seq<char> {
    let t = strip_dashes_back(strip_dashes_front(sanitize_map(s)));
    if t.len() == 0 {
        "devcontainer"@
    } else {
        t
    }
}

fn sanitize_char_exec(c: char) -> (r: char)
    ensures
        r == sanitize_char(c),
{
    let u = c as u32;
    if (97 <= u && u <= 122) || (48 <= u && u <= 57) {
        c
    } else if 65 <= u && u <= 90 {
        ((u + 32) as u8) as char
    } else if c == '-' || c == '_' || c == '.' {
        c
    } else {
        '-'
    }
}

/// Sanitize a project name into a slug, exactly as [`sanitize_spec`] says.
pub fn sanitize_name(input: &str) -> (r: String)
    ensures
        r@ == sanitize_spec(input@),
{
    let v = str_to_chars(input);
    let n = v.len();
    let mut mapped: Vec<char> = Vec::new();
    let mut i: usize = 0;
    while i < n
        invariant
            n == v@.len(),
            i <= n,
            mapped@.len() == i,
            forall|j: int| 0 <= j < i ==> mapped@[j] == sanitize_char(v@[j]),
        decreases n - i,
    {
        mapped.push(sanitize_char_exec(v[i]));
        i = i + 1;
    }
    proof {
        assert(mapped@ =~= sanitize_map(v@));
    }

    let mut a: usize = 0;
    proof {
        assert(mapped@.skip(0) =~= mapped@);
    }
    while a < n && mapped[a] == '-'
        invariant
            n == mapped@.len(),
            a <= n,
            strip_dashes_front(mapped@) == strip_dashes_front(mapped@.skip(a as int)),
        decreases n - a,
    {
        proof {
            assert(mapped@.skip(a as int).skip(1) =~= mapped@.skip(a + 1));
        }
        a = a + 1;
    }
    proof {
        if a < n {
            assert(strip_dashes_front(mapped@.skip(a as int)) == mapped@.skip(a as int));
        } else {
            assert(mapped@.skip(a as int) =~= Seq::<char>::empty());
        }
    }
    let ghost t = mapped@.skip(a as int);
    let mut b: usize = n;
    proof {
        assert(t.take(n - a) =~= t);
    }
    while b > a && mapped[b - 1] == '-'
        invariant
            n == mapped@.len(),
            a <= b <= n,
            t == mapped@.skip(a as int),
            strip_dashes_back(t) == strip_dashes_back(t.take(b - a)),
        decreases b,
    {
        proof {
            assert(t.take(b - a).last() == mapped@[b - 1]);
            assert(t.take(b - a).drop_last() =~= t.take(b - a - 1));
        }
        b = b - 1;
    }
    proof {
        if b == a {
            assert(t.take(0) =~= Seq::<char>::empty());
        } else {
            assert(t.take(b - a).last() == mapped@[b - 1]);
            assert(strip_dashes_back(t.take(b - a)) == t.take(b - a));
        }
        assert(t.take(b - a) =~= mapped@.subrange(a as int, b as int));
    }
    if a == b {
        return String::from_str("devcontainer");
    }
    let out = sub_vec(&mapped, a, b);
    chars_to_string(&out)
}

/// The full command line of an engine invocation: the program, then each
/// argument, space-separated.
pub open spec fn cmdline_tail(args: Seq<String>) -> Seq<char>
    decreases args.len(),
{
    if args.len() == 0 {
        Seq::<char>::empty()
    } else {
        cmdline_tail(args.drop_last()) + seq![' '] + args.last()@
    }
}

/// See [`cmdline_tail`].
pub open spec fn cmdline_spec(program: Seq<char>, args: Seq<String>) -> Seq<char> {
    program + cmdline_tail(args)
}

/// Render a command line for diagnostics, exactly as [`cmdline_spec`] says.
pub fn format_command(program: &str, args: &Vec<String>) -> (r: String)
    ensures
        r@ == cmdline_spec(program@, args@),
{
    let mut out = String::from_str(program);
    let n = args.len();
    let mut i: usize = 0;
    proof {
        reveal_strlit(" ");
        assert(args@.take(0) =~= Seq::<String>::empty());
        assert(out@ =~= cmdline_spec(program@, args@.take(0)));
    }
    while i < n
        invariant
            n == args@.len(),
            i <= n,
            out@ == cmdline_spec(program@, args@.take(i as int)),
        decreases n - i,
    {
        out.append(" ");
        out.append(args[i].as_str());
        i = i + 1;
        proof {
            reveal_strlit(" ");
            assert(args@.take(i as int).drop_last() =~= args@.take(i - 1));
            assert(args@.take(i as int).last() == args@[i - 1]);
            assert(out@ =~= cmdline_spec(program@, args@.take(i as int)));
        }
    }
    proof {
        assert(args@.take(n as int) =~= args@);
    }
    out
}

/// What the workspace mount path of a slug is.
pub open spec fn workspace_mount_spec(slug: Seq<char>) -> Seq<char> {
    "/workspaces/"@ + slug
}

/// Compute the provisioning metadata for a configuration: the project slug,
/// the container, network and volume names derived from it, and the image
/// source. The caller reports whether the workspace folder and the
/// dockerfile exist on disk; a missing workspace, a missing dockerfile, or
/// a configuration with neither image nor dockerfile fails with a
/// configuration error.
pub fn prepare(config: &ResolvedConfig, workspace_exists: bool, dockerfile_exists: bool) -> (r:
    Result<ProviderPreparation, DevcontainerError>)
    ensures
        r is Ok <==> (workspace_exists && (config.image_reference is Some || (
        config.dockerfile is Some && dockerfile_exists))),
        r matches Err(e) ==> e is Configuration,
        !workspace_exists ==> (r matches Err(e) && e.message_spec() == "Workspace folder "@
            + config.workspace_folder@ + " does not exist"@),
        workspace_exists && config.image_reference is None ==> (match config.dockerfile {
            Some(df) => !dockerfile_exists ==> (r matches Err(e) && e.message_spec()
                == "Dockerfile "@ + df@ + " does not exist"@),
            None => r matches Err(e) && e.message_spec()
                == "devcontainer.json must define either `image` or `dockerFile`"@,
        }),
        r matches Ok(prep) ==> {
            let slug = sanitize_spec(config.project_name@);
            &&& prep.project_slug@ == slug
            &&& prep.container_name@ == "devcontainer-"@ + slug
            &&& prep.workspace_mount_path@ == workspace_mount_spec(slug)
            &&& prep.networks@.len() == 1
            &&& prep.networks@[0]@ == "devcontainer-"@ + slug + "-network"@
            &&& prep.volumes@.len() == 1
            &&& prep.volumes@[0].name@ == "devcontainer-"@ + slug + "-data"@
            &&& prep.volumes@[0].mount_path@ == "/workspaces/.devcontainer"@
            &&& (match config.image_reference {
                Some(image) => prep.image matches ProviderImage::Reference(i) && i@ == image@,
                None => {
                    &&& config.dockerfile matches Some(df) && (
                    prep.image matches ProviderImage::Build(build) && {
                        &&& build.dockerfile@ == df@
                        &&& build.tag@ == "devcontainer-"@ + slug + ":latest"@
                        &&& build.build_context@ == (match parent_spec(df@) {
                            Some(p) => p,
                            None => config.workspace_folder@,
                        })
                    })
                },
            })
        },
{
    if !workspace_exists {
        let mut m = String::from_str("Workspace folder ");
        m.append(config.workspace_folder.as_str());
        m.append(" does not exist");
        proof {
            assert(m@ =~= "Workspace folder "@ + config.workspace_folder@
                + " does not exist"@);
        }
        return Err(DevcontainerError::Configuration(m));
    }

    let project_slug = sanitize_name(config.project_name.as_str());

    let mut container_name = String::from_str("devcontainer-");
    container_name.append(project_slug.as_str());
    proof {
        assert(container_name@ =~= "devcontainer-"@ + project_slug@);
    }

    let mut workspace_mount_path = String::from_str("/workspaces/");
    workspace_mount_path.append(project_slug.as_str());
    proof {
        assert(workspace_mount_path@ =~= workspace_mount_spec(project_slug@));
    }

    let mut network_name = String::from_str("devcontainer-");
    network_name.append(project_slug.as_str());
    network_name.append("-network");
    proof {
        assert(network_name@ =~= "devcontainer-"@ + project_slug@ + "-network"@);
    }

    let mut volume_name = String::from_str("devcontainer-");
    volume_name.append(project_slug.as_str());
    volume_name.append("-data");
    proof {
        assert(volume_name@ =~= "devcontainer-"@ + project_slug@ + "-data"@);
    }

    let image: ProviderImage = match &config.image_reference {
        Some(reference) => ProviderImage::Reference(reference.clone()),
        None => {
            match &config.dockerfile {
                Some(dockerfile) => {
                    if !dockerfile_exists {
                        let mut m = String::from_str("Dockerfile ");
                        m.append(dockerfile.as_str());
                        m.append(" does not exist");
                        proof {
                            assert(m@ =~= "Dockerfile "@ + dockerfile@ + " does not exist"@);
                        }
                        return Err(DevcontainerError::Configuration(m));
                    }
                    let build_context: String = match path_parent(dockerfile.as_str()) {
                        Some(p) => p,
                        None => config.workspace_folder.clone(),
                    };
                    let mut tag = String::from_str("devcontainer-");
                    tag.append(project_slug.as_str());
                    tag.append(":latest");
                    proof {
                        assert(tag@ =~= "devcontainer-"@ + project_slug@ + ":latest"@);
                    }
                    ProviderImage::Build(
                        ProviderBuildContext {
                            dockerfile: dockerfile.clone(),
                            build_context,
                            tag,
                        },
                    )
                },
                None => {
                    return Err(
                        DevcontainerError::Configuration(
                            String::from_str(
                                "devcontainer.json must define either `image` or `dockerFile`",
                            ),
                        ),
                    );
                },
            }
        },
    };

    let mut networks: Vec<String> = Vec::new();
    networks.push(network_name);
    let mut volumes: Vec<VolumeSpec> = Vec::new();
    volumes.push(
        VolumeSpec {
            name: volume_name,
            mount_path: String::from_str("/workspaces/.devcontainer"),
        },
    );

    Ok(
        ProviderPreparation {
            image,
            container_name,
            project_slug,
            networks,
            volumes,
            workspace_mount_path,
        },
    )
}


/// The outcome of one finished engine subprocess, as the driver reports it:
/// whether it exited successfully, its exit code (`-1` when none), and its
/// captured output.
#[derive(Debug, Clone, PartialEq, Eq)]
pub struct CmdOutput {
    pub success: bool,
    pub exit_code: i32,
    pub stdout: String,
    pub stderr: String,
}

/// The two resource kinds reconciled idempotently.
#[derive(Debug, Clone, Copy, PartialEq, Eq)]
pub enum ResourceKind {
    Network,
    Volume,
}

impl ResourceKind {
    /// The kind's name in engine subcommands and messages.
    pub open spec fn name_spec(&self) -> Seq<char> {
        match self {
            ResourceKind::Network => "network"@,
            ResourceKind::Volume => "volume"@,
        }
    }

    /// The engine's stderr pattern for an absent resource of this kind.
    pub open spec fn absence_pattern_spec(&self) -> Seq<char> {
        match self {
            ResourceKind::Network => "No such network"@,
            ResourceKind::Volume => "No such volume"@,
        }
    }

    /// The kind's name in engine subcommands and messages.
    pub fn name(&self) -> (r: String)
        ensures
            r@ == self.name_spec(),
    {
        match self {
            ResourceKind::Network => String::from_str("network"),
            ResourceKind::Volume => String::from_str("volume"),
        }
    }

    fn absence_pattern(&self) -> (r: String)
        ensures
            r@ == self.absence_pattern_spec(),
    {
        match self {
            ResourceKind::Network => String::from_str("No such network"),
            ResourceKind::Volume => String::from_str("No such volume"),
        }
    }
}

fn push_string_vec(out: &mut Vec<String>, s: String)
    ensures
        strs_view(final(out)@) == strs_view(old(out)@).push(s@),
{
    let ghost sv = s@;
    out.push(s);
    proof {
        assert(strs_view(out@) =~= strs_view(old(out)@).push(sv));
    }
}

fn push_str_vec(out: &mut Vec<String>, s: &str)
    ensures
        strs_view(final(out)@) == strs_view(old(out)@).push(s@),
{
    out.push(String::from_str(s));
    proof {
        assert(strs_view(out@) =~= strs_view(old(out)@).push(s@));
    }
}

/// The argument vector that inspects a resource: `<kind> inspect <name>`.
pub fn resource_inspect_args(kind: ResourceKind, name: &str) -> (r: Vec<String>)
    ensures
        strs_view(r@) == seq![kind.name_spec(), "inspect"@, name@],
{
    let mut out: Vec<String> = Vec::new();
    out.push(kind.name());
    push_str_vec(&mut out, "inspect");
    push_str_vec(&mut out, name);
    proof {
        assert(strs_view(out@) =~= seq![kind.name_spec(), "inspect"@, name@]);
    }
    out
}

/// The argument vector that creates a resource: `<kind> create <name>`.
pub fn resource_create_args(kind: ResourceKind, name: &str) -> (r: Vec<String>)
    ensures
        strs_view(r@) == seq![kind.name_spec(), "create"@, name@],
{
    let mut out: Vec<String> = Vec::new();
    out.push(kind.name());
    push_str_vec(&mut out, "create");
    push_str_vec(&mut out, name);
    proof {
        assert(strs_view(out@) =~= seq![kind.name_spec(), "create"@, name@]);
    }
    out
}

/// The argument vector that removes a resource: `<kind> rm <name>`.
pub fn resource_remove_args(kind: ResourceKind, name: &str) -> (r: Vec<String>)
    ensures
        strs_view(r@) == seq![kind.name_spec(), "rm"@, name@],
{
    let mut out: Vec<String> = Vec::new();
    out.push(kind.name());
    push_str_vec(&mut out, "rm");
    push_str_vec(&mut out, name);
    proof {
        assert(strs_view(out@) =~= seq![kind.name_spec(), "rm"@, name@]);
    }
    out
}

/// What an idempotent reconciliation does next after inspecting a resource.
#[derive(Debug, Clone, Copy, PartialEq, Eq)]
pub enum ReconcileAction {
    AlreadyPresent,
    Create,
}

/// The error text when inspecting a resource fails for a reason other than
/// absence.
pub open spec fn inspect_failure_message(
    kind: ResourceKind,
    name: Seq<char>,
    stderr_trimmed: Seq<char>,
) -> Seq<char> {
    "Failed to inspect docker "@ + kind.name_spec() + " "@ + name + ": "@ + stderr_trimmed
}

/// An inspection outcome that reconciliation handles without error: the
/// resource exists, or the engine reported it absent.
pub open spec fn reconcile_ok_spec(kind: ResourceKind, out: CmdOutput) -> bool {
    out.success || contains_seq(out.stderr@, kind.absence_pattern_spec())
}

/// Classify the inspection of a named resource: success means it already
/// exists; a failure whose stderr carries the kind's absence pattern means
/// it must be created; any other failure is a provider error.
pub fn reconcile_inspect_outcome(kind: ResourceKind, name: &str, inspect: &CmdOutput) -> (r:
    Result<ReconcileAction, DevcontainerError>)
    ensures
        r is Ok <==> reconcile_ok_spec(kind, *inspect),
        inspect.success ==> r == Ok::<ReconcileAction, DevcontainerError>(
            ReconcileAction::AlreadyPresent,
        ),
        !inspect.success && contains_seq(inspect.stderr@, kind.absence_pattern_spec()) ==> r
            == Ok::<ReconcileAction, DevcontainerError>(ReconcileAction::Create),
        !inspect.success && !contains_seq(inspect.stderr@, kind.absence_pattern_spec()) ==> (
        r matches Err(e) && e is Provider && e.message_spec() == inspect_failure_message(
            kind,
            name@,
            trim_spec(inspect.stderr@),
        )),
{
    if inspect.success {
        return Ok(ReconcileAction::AlreadyPresent);
    }
    let pattern = kind.absence_pattern();
    if str_contains(inspect.stderr.as_str(), pattern.as_str()) {
        return Ok(ReconcileAction::Create);
    }
    let stderr = trim_str(inspect.stderr.as_str());
    let mut m = String::from_str("Failed to inspect docker ");
    m.append(kind.name().as_str());
    m.append(" ");
    m.append(name);
    m.append(": ");
    m.append(stderr.as_str());
    proof {
        assert(m@ =~= inspect_failure_message(kind, name@, trim_spec(inspect.stderr@)));
    }
    Err(DevcontainerError::Provider(m))
}

/// The error text when an engine command that had to succeed did not.
pub open spec fn command_failure_message(
    command_line: Seq<char>,
    exit_code: int,
    stdout_trimmed: Seq<char>,
    stderr_trimmed: Seq<char>,
) -> Seq<char> {
    "Command '"@ + command_line + "' exited with code "@ + dec_i32_seq(exit_code)
        + ". stdout: "@ + stdout_trimmed + " stderr: "@ + stderr_trimmed
}

/// Demand success of an engine command: a failure is a provider error
/// carrying the command line, exit code and captured output.
pub fn expect_success(command_line: &str, out: &CmdOutput) -> (r: Result<(), DevcontainerError>)
    ensures
        r is Ok <==> out.success,
        r matches Err(e) ==> e is Provider && e.message_spec() == command_failure_message(
            command_line@,
            out.exit_code as int,
            trim_spec(out.stdout@),
            trim_spec(out.stderr@),
        ),
{
    if out.success {
        return Ok(());
    }
    let code_text = i32_to_string(out.exit_code);
    let stdout = trim_str(out.stdout.as_str());
    let stderr = trim_str(out.stderr.as_str());
    let mut m = String::from_str("Command '");
    m.append(command_line);
    m.append("' exited with code ");
    m.append(code_text.as_str());
    m.append(". stdout: ");
    m.append(stdout.as_str());
    m.append(" stderr: ");
    m.append(stderr.as_str());
    proof {
        assert(m@ =~= command_failure_message(
            command_line@,
            out.exit_code as int,
            trim_spec(out.stdout@),
            trim_spec(out.stderr@),
        ));
    }
    Err(DevcontainerError::Provider(m))
}

/// How the build phase gets a directly referenced image: use it when the
/// local inspection succeeded, pull it otherwise.
#[derive(Debug, Clone, Copy, PartialEq, Eq)]
pub enum ImageAction {
    UseLocal,
    Pull,
}

/// Decide how a referenced image becomes available.
pub fn image_action(inspect: &CmdOutput) -> (r: ImageAction)
    ensures
        r == (if inspect.success {
            ImageAction::UseLocal
        } else {
            ImageAction::Pull
        }),
{
    if inspect.success {
        ImageAction::UseLocal
    } else {
        ImageAction::Pull
    }
}

/// The argument vector that inspects an image: `image inspect <reference>`.
pub fn image_inspect_args(reference: &str) -> (r: Vec<String>)
    ensures
        strs_view(r@) == seq!["image"@, "inspect"@, reference@],
{
    let mut out: Vec<String> = Vec::new();
    push_str_vec(&mut out, "image");
    push_str_vec(&mut out, "inspect");
    push_str_vec(&mut out, reference);
    proof {
        assert(strs_view(out@) =~= seq!["image"@, "inspect"@, reference@]);
    }
    out
}

/// The argument vector that pulls an image: `pull <reference>`.
pub fn pull_args(reference: &str) -> (r: Vec<String>)
    ensures
        strs_view(r@) == seq!["pull"@, reference@],
{
    let mut out: Vec<String> = Vec::new();
    push_str_vec(&mut out, "pull");
    push_str_vec(&mut out, reference);
    proof {
        assert(strs_view(out@) =~= seq!["pull"@, reference@]);
    }
    out
}

/// The argument vector that builds an image:
/// `build -f <dockerfile> -t <tag> <context>`.
pub fn build_args(build: &ProviderBuildContext) -> (r: Vec<String>)
    ensures
        strs_view(r@) == seq![
            "build"@,
            "-f"@,
            build.dockerfile@,
            "-t"@,
            build.tag@,
            build.build_context@,
        ],
{
    let mut out: Vec<String> = Vec::new();
    push_str_vec(&mut out, "build");
    push_str_vec(&mut out, "-f");
    push_string_vec(&mut out, build.dockerfile.clone());
    push_str_vec(&mut out, "-t");
    push_string_vec(&mut out, build.tag.clone());
    push_string_vec(&mut out, build.build_context.clone());
    proof {
        assert(strs_view(out@) =~= seq![
            "build"@,
            "-f"@,
            build.dockerfile@,
            "-t"@,
            build.tag@,
            build.build_context@,
        ]);
    }
    out
}

/// The argument vector that force-removes a stale container before creating
/// its replacement: `container rm --force <name>`.
pub fn stale_remove_args(name: &str) -> (r: Vec<String>)
    ensures
        strs_view(r@) == seq!["container"@, "rm"@, "--force"@, name@],
{
    let mut out: Vec<String> = Vec::new();
    push_str_vec(&mut out, "container");
    push_str_vec(&mut out, "rm");
    push_str_vec(&mut out, "--force");
    push_str_vec(&mut out, name);
    proof {
        assert(strs_view(out@) =~= seq!["container"@, "rm"@, "--force"@, name@]);
    }
    out
}

/// Whether a failed stale-container removal deserves a warning: it does
/// unless the container was simply absent or the engine said nothing.
pub fn stale_remove_warns(out: &CmdOutput) -> (r: bool)
    ensures
        r == (!out.success && !contains_seq(out.stderr@, "No such container"@)
            && out.stderr@.len() > 0),
{
    if out.success {
        return false;
    }
    if str_contains(out.stderr.as_str(), "No such container") {
        return false;
    }
    let v = str_to_chars(out.stderr.as_str());
    v.len() > 0
}


/// The bind-mount option text for the workspace.
pub open spec fn bind_mount_text(src: Seq<char>, dst: Seq<char>) -> Seq<char> {
    "type=bind,src="@ + src + ",dst="@ + dst
}

/// The volume-mount option text for a declared volume.
pub open spec fn volume_mount_text(name: Seq<char>, dst: Seq<char>) -> Seq<char> {
    "type=volume,src="@ + name + ",dst="@ + dst
}

/// The `--mount` pairs of the declared volumes, in declaration order.
pub open spec fn volume_mount_args_spec(volumes: Seq<VolumeSpec>) -> Seq<Seq<char>>
    decreases volumes.len(),
{
    if volumes.len() == 0 {
        Seq::<Seq<char>>::empty()
    } else {
        volume_mount_args_spec(volumes.drop_last()) + seq![
            "--mount"@,
            volume_mount_text(volumes.last().name@, volumes.last().mount_path@),
        ]
    }
}

/// The argument vector that creates the container: name and hostname set to
/// the prepared container name, the first network when one is declared, a
/// label naming the owning project, the working directory and a bind mount
/// of the host workspace at the container workspace path, one mount per
/// declared volume, and the image followed by a long-lived idle command so
/// the container does not exit on its own.
pub open spec fn create_container_args_spec(
    project_name: Seq<char>,
    workspace_src: Seq<char>,
    prep: ProviderPreparation,
    image_reference: Seq<char>,
) -> Seq<Seq<char>> {
    let head = seq![
        "create"@,
        "--name"@,
        prep.container_name@,
        "--hostname"@,
        prep.container_name@,
    ];
    let net = if prep.networks@.len() > 0 {
        seq!["--network"@, prep.networks@[0]@]
    } else {
        Seq::<Seq<char>>::empty()
    };
    let mid = seq![
        "--label"@,
        "devcontainer.project="@ + project_name,
        "--workdir"@,
        prep.workspace_mount_path@,
        "--mount"@,
        bind_mount_text(workspace_src, prep.workspace_mount_path@),
    ];
    head + net + mid + volume_mount_args_spec(prep.volumes@) + seq![
        image_reference,
        "sleep"@,
        "infinity"@,
    ]
}

/// Build the creation argument vector, exactly as
/// [`create_container_args_spec`] says.
pub fn create_container_args(
    config: &ResolvedConfig,
    preparation: &ProviderPreparation,
    image_reference: &str,
) -> (r: Vec<String>)
    ensures
        strs_view(r@) == create_container_args_spec(
            config.project_name@,
            config.workspace_folder@,
            *preparation,
            image_reference@,
        ),
{
    let ghost head = seq![
        "create"@,
        "--name"@,
        preparation.container_name@,
        "--hostname"@,
        preparation.container_name@,
    ];
    let mut out: Vec<String> = Vec::new();
    push_str_vec(&mut out, "create");
    push_str_vec(&mut out, "--name");
    push_string_vec(&mut out, preparation.container_name.clone());
    push_str_vec(&mut out, "--hostname");
    push_string_vec(&mut out, preparation.container_name.clone());
    proof {
        assert(strs_view(out@) =~= head);
    }

    let ghost net = if preparation.networks@.len() > 0 {
        seq!["--network"@, preparation.networks@[0]@]
    } else {
        Seq::<Seq<char>>::empty()
    };
    if preparation.networks.len() > 0 {
        push_str_vec(&mut out, "--network");
        push_string_vec(&mut out, preparation.networks[0].clone());
    }
    proof {
        assert(strs_view(out@) =~= head + net);
    }

    let mut label = String::from_str("devcontainer.project=");
    label.append(config.project_name.as_str());
    proof {
        assert(label@ =~= "devcontainer.project="@ + config.project_name@);
    }
    let mut bind = String::from_str("type=bind,src=");
    bind.append(config.workspace_folder.as_str());
    bind.append(",dst=");
    bind.append(preparation.workspace_mount_path.as_str());
    proof {
        assert(bind@ =~= bind_mount_text(
            config.workspace_folder@,
            preparation.workspace_mount_path@,
        ));
    }
    let ghost mid = seq![
        "--label"@,
        "devcontainer.project="@ + config.project_name@,
        "--workdir"@,
        preparation.workspace_mount_path@,
        "--mount"@,
        bind_mount_text(config.workspace_folder@, preparation.workspace_mount_path@),
    ];
    push_str_vec(&mut out, "--label");
    push_string_vec(&mut out, label);
    push_str_vec(&mut out, "--workdir");
    push_string_vec(&mut out, preparation.workspace_mount_path.clone());
    push_str_vec(&mut out, "--mount");
    push_string_vec(&mut out, bind);
    proof {
        assert(strs_view(out@) =~= head + net + mid);
    }

    let nvol = preparation.volumes.len();
    let mut i: usize = 0;
    proof {
        assert(preparation.volumes@.take(0) =~= Seq::<VolumeSpec>::empty());
        assert(strs_view(out@) =~= head + net + mid + volume_mount_args_spec(
            preparation.volumes@.take(0),
        ));
    }
    while i < nvol
        invariant
            nvol == preparation.volumes@.len(),
            i <= nvol,
            head == seq![
                "create"@,
                "--name"@,
                preparation.container_name@,
                "--hostname"@,
                preparation.container_name@,
            ],
            net == (if preparation.networks@.len() > 0 {
                seq!["--network"@, preparation.networks@[0]@]
            } else {
                Seq::<Seq<char>>::empty()
            }),
            mid == seq![
                "--label"@,
                "devcontainer.project="@ + config.project_name@,
                "--workdir"@,
                preparation.workspace_mount_path@,
                "--mount"@,
                bind_mount_text(config.workspace_folder@, preparation.workspace_mount_path@),
            ],
            strs_view(out@) == head + net + mid + volume_mount_args_spec(
                preparation.volumes@.take(i as int),
            ),
        decreases nvol - i,
    {
        let volume = &preparation.volumes[i];
        let mut mount = String::from_str("type=volume,src=");
        mount.append(volume.name.as_str());
        mount.append(",dst=");
        mount.append(volume.mount_path.as_str());
        proof {
            assert(mount@ =~= volume_mount_text(volume.name@, volume.mount_path@));
        }
        push_str_vec(&mut out, "--mount");
        push_string_vec(&mut out, mount);
        i = i + 1;
        proof {
            let vols = preparation.volumes@;
            assert(vols.take(i as int).drop_last() =~= vols.take(i - 1));
            assert(vols.take(i as int).last() == vols[i - 1]);
            assert(strs_view(out@) =~= head + net + mid + volume_mount_args_spec(
                vols.take(i as int),
            ));
        }
    }
    proof {
        assert(preparation.volumes@.take(nvol as int) =~= preparation.volumes@);
    }

    push_str_vec(&mut out, image_reference);
    push_str_vec(&mut out, "sleep");
    push_str_vec(&mut out, "infinity");
    proof {
        assert(strs_view(out@) =~= create_container_args_spec(
            config.project_name@,
            config.workspace_folder@,
            *preparation,
            image_reference@,
        ));
    }
    out
}

/// The container identity a successful creation yields: the engine-assigned
/// id from trimmed stdout when non-empty, and the prepared name.
pub fn container_from_create_output(name: &str, out: &CmdOutput) -> (r: RunningContainer)
    ensures
        r.name matches Some(n) && n@ == name@,
        trim_spec(out.stdout@).len() == 0 ==> r.id is None,
        trim_spec(out.stdout@).len() > 0 ==> (r.id matches Some(id) && id@ == trim_spec(
            out.stdout@,
        )),
{
    let id = trim_str(out.stdout.as_str());
    let id_chars = str_to_chars(id.as_str());
    RunningContainer {
        id: if id_chars.len() == 0 {
            None
        } else {
            Some(id)
        },
        name: Some(String::from_str(name)),
    }
}

/// The identifier later operations address a container by: its name,
/// preferred, else its id.
pub open spec fn container_identifier_spec(c: RunningContainer) -> Option<Seq<char>> {
    match c.name {
        Some(n) => Some(n@),
        None => match c.id {
            Some(i) => Some(i@),
            None => None,
        },
    }
}

/// Pick the identifier of a container: name preferred, else id; a container
/// with neither is a provider error.
pub fn container_identifier(container: &RunningContainer) -> (r: Result<
    String,
    DevcontainerError,
>)
    ensures
        r is Ok <==> container_identifier_spec(*container) is Some,
        r matches Ok(id) ==> Some(id@) == container_identifier_spec(*container),
        r matches Err(e) ==> e is Provider && e.message_spec()
            == "Container has no identifier"@,
{
    match &container.name {
        Some(n) => Ok(n.clone()),
        None => match &container.id {
            Some(i) => Ok(i.clone()),
            None => Err(
                DevcontainerError::Provider(String::from_str("Container has no identifier")),
            ),
        },
    }
}

/// The identifier a stop addresses: the container's name or id, or the
/// prepared container name when the handle carries neither.
pub open spec fn stop_identifier_spec(c: RunningContainer, fallback: Seq<char>) -> Seq<char> {
    match container_identifier_spec(c) {
        Some(id) => id,
        None => fallback,
    }
}

/// Pick the identifier a stop addresses.
pub fn stop_identifier(container: &RunningContainer, preparation: &ProviderPreparation) -> (r:
    String)
    ensures
        r@ == stop_identifier_spec(*container, preparation.container_name@),
{
    match container_identifier(container) {
        Ok(id) => id,
        Err(_) => preparation.container_name.clone(),
    }
}

/// The argument vector that starts a container: `start <identifier>`.
pub fn start_args(identifier: &str) -> (r: Vec<String>)
    ensures
        strs_view(r@) == seq!["start"@, identifier@],
{
    let mut out: Vec<String> = Vec::new();
    push_str_vec(&mut out, "start");
    push_str_vec(&mut out, identifier);
    proof {
        assert(strs_view(out@) =~= seq!["start"@, identifier@]);
    }
    out
}

/// The exec invocation for a command: `None` for an empty command, which is
/// a zero-effort success that never reaches the engine; otherwise
/// `exec <identifier> <command...>`.
pub fn exec_call_plan(identifier: &str, command: &Vec<String>) -> (r: Option<Vec<String>>)
    ensures
        r is None <==> command@.len() == 0,
        r matches Some(args) ==> strs_view(args@) == seq!["exec"@, identifier@] + strs_view(
            command@,
        ),
{
    if command.len() == 0 {
        return None;
    }
    let mut out: Vec<String> = Vec::new();
    push_str_vec(&mut out, "exec");
    push_str_vec(&mut out, identifier);
    let n = command.len();
    let mut i: usize = 0;
    proof {
        assert(strs_view(command@).subrange(0, 0) =~= Seq::<Seq<char>>::empty());
        assert(strs_view(out@) =~= seq!["exec"@, identifier@] + strs_view(command@).subrange(
            0,
            0,
        ));
    }
    while i < n
        invariant
            n == command@.len(),
            i <= n,
            strs_view(out@) == seq!["exec"@, identifier@] + strs_view(command@).subrange(
                0,
                i as int,
            ),
        decreases n - i,
    {
        push_string_vec(&mut out, command[i].clone());
        i = i + 1;
        proof {
            assert(strs_view(out@) =~= seq!["exec"@, identifier@] + strs_view(
                command@,
            ).subrange(0, i as int));
        }
    }
    proof {
        assert(strs_view(command@).subrange(0, n as int) =~= strs_view(command@));
    }
    Some(out)
}

/// The exec result of a finished engine invocation.
pub fn exec_result_of(out: &CmdOutput) -> (r: ExecResult)
    ensures
        r.exit_code == out.exit_code,
        r.stdout == out.stdout,
        r.stderr == out.stderr,
{
    ExecResult {
        exit_code: out.exit_code,
        stdout: out.stdout.clone(),
        stderr: out.stderr.clone(),
    }
}

/// The argument vector that stops a container: `container stop <identifier>`.
pub fn stop_args(identifier: &str) -> (r: Vec<String>)
    ensures
        strs_view(r@) == seq!["container"@, "stop"@, identifier@],
{
    let mut out: Vec<String> = Vec::new();
    push_str_vec(&mut out, "container");
    push_str_vec(&mut out, "stop");
    push_str_vec(&mut out, identifier);
    proof {
        assert(strs_view(out@) =~= seq!["container"@, "stop"@, identifier@]);
    }
    out
}

/// A stop is benign when it succeeded, or when the engine said the
/// container does not exist or is not running.
pub open spec fn stop_ok_spec(out: CmdOutput) -> bool {
    out.success || contains_seq(out.stderr@, "No such container"@) || contains_seq(
        out.stderr@,
        "is not running"@,
    )
}

/// The error text for a stop that failed for a real reason.
pub open spec fn stop_failure_message(identifier: Seq<char>, stderr_trimmed: Seq<char>) -> Seq<
    char,
> {
    "Failed to stop container "@ + identifier + ": "@ + stderr_trimmed
}

/// Classify a stop: success, absence and "not running" are all success;
/// anything else is a provider error.
pub fn stop_outcome(identifier: &str, out: &CmdOutput) -> (r: Result<(), DevcontainerError>)
    ensures
        r is Ok <==> stop_ok_spec(*out),
        r matches Err(e) ==> e is Provider && e.message_spec() == stop_failure_message(
            identifier@,
            trim_spec(out.stderr@),
        ),
{
    if out.success {
        return Ok(());
    }
    if str_contains(out.stderr.as_str(), "No such container") {
        return Ok(());
    }
    if str_contains(out.stderr.as_str(), "is not running") {
        return Ok(());
    }
    let stderr = trim_str(out.stderr.as_str());
    let mut m = String::from_str("Failed to stop container ");
    m.append(identifier);
    m.append(": ");
    m.append(stderr.as_str());
    proof {
        assert(m@ =~= stop_failure_message(identifier@, trim_spec(out.stderr@)));
    }
    Err(DevcontainerError::Provider(m))
}


/// One removal of a cleanup run.
#[derive(Debug, Clone, PartialEq, Eq)]
pub enum CleanupTarget {
    /// Force-remove the container, optionally with its anonymous volumes.
    Container { name: String, remove_volumes: bool },
    Network(String),
    Volume(String),
}

/// The ordered removals of a cleanup run: the container first, then each
/// declared network, then each declared volume when volume removal was
/// requested.
pub open spec fn cleanup_plan_spec(
    prep: ProviderPreparation,
    options: ProviderCleanupOptions,
) -> Seq<CleanupTarget> {
    let container = seq![
        CleanupTarget::Container {
            name: prep.container_name,
            remove_volumes: options.remove_volumes,
        },
    ];
    let nets = Seq::new(prep.networks@.len(), |i: int| CleanupTarget::Network(prep.networks@[i]));
    let vols = if options.remove_volumes {
        Seq::new(prep.volumes@.len(), |i: int| CleanupTarget::Volume(prep.volumes@[i].name))
    } else {
        Seq::<CleanupTarget>::empty()
    };
    container + nets + vols
}

/// List the removals of a cleanup run, exactly as [`cleanup_plan_spec`]
/// says.
pub fn cleanup_plan(
    preparation: &ProviderPreparation,
    options: &ProviderCleanupOptions,
) -> (r: Vec<CleanupTarget>)
    ensures
        r@ == cleanup_plan_spec(*preparation, *options),
{
    let mut out: Vec<CleanupTarget> = Vec::new();
    out.push(
        CleanupTarget::Container {
            name: preparation.container_name.clone(),
            remove_volumes: options.remove_volumes,
        },
    );
    let nn = preparation.networks.len();
    let mut i: usize = 0;
    proof {
        assert(out@ =~= cleanup_plan_spec(*preparation, *options).take(1));
    }
    while i < nn
        invariant
            nn == preparation.networks@.len(),
            i <= nn,
            out@ == cleanup_plan_spec(*preparation, *options).take(1 + i),
        decreases nn - i,
    {
        out.push(CleanupTarget::Network(preparation.networks[i].clone()));
        i = i + 1;
        proof {
            assert(out@ =~= cleanup_plan_spec(*preparation, *options).take(1 + i));
        }
    }
    if options.remove_volumes {
        let nv = preparation.volumes.len();
        let mut j: usize = 0;
        while j < nv
            invariant
                options.remove_volumes,
                nn == preparation.networks@.len(),
                nv == preparation.volumes@.len(),
                j <= nv,
                out@ == cleanup_plan_spec(*preparation, *options).take(1 + nn + j),
            decreases nv - j,
        {
            out.push(CleanupTarget::Volume(preparation.volumes[j].name.clone()));
            j = j + 1;
            proof {
                assert(out@ =~= cleanup_plan_spec(*preparation, *options).take(1 + nn + j));
            }
        }
    }
    proof {
        assert(cleanup_plan_spec(*preparation, *options).take(
            cleanup_plan_spec(*preparation, *options).len() as int,
        ) =~= cleanup_plan_spec(*preparation, *options));
    }
    out
}

/// The engine's stderr pattern that marks this target as already absent.
pub open spec fn cleanup_absence_pattern_spec(t: CleanupTarget) -> Seq<char> {
    match t {
        CleanupTarget::Container { .. } => "No such container"@,
        CleanupTarget::Network(_) => "No such network"@,
        CleanupTarget::Volume(_) => "No such volume"@,
    }
}

/// A removal is benign when it succeeded or its target was already absent.
pub open spec fn cleanup_target_ok_spec(t: CleanupTarget, out: CmdOutput) -> bool {
    out.success || contains_seq(out.stderr@, cleanup_absence_pattern_spec(t))
}

/// The error text for a removal that failed for a real reason.
pub open spec fn cleanup_failure_message(t: CleanupTarget, stderr_trimmed: Seq<char>) -> Seq<
    char,
> {
    match t {
        CleanupTarget::Container { name, .. } => "Failed to remove container "@ + name@ + ": "@
            + stderr_trimmed,
        CleanupTarget::Network(n) => "Failed to remove docker network "@ + n@ + ": "@
            + stderr_trimmed,
        CleanupTarget::Volume(n) => "Failed to remove docker volume "@ + n@ + ": "@
            + stderr_trimmed,
    }
}

impl CleanupTarget {
    /// The argument vector that removes this target: `container rm --force`
    /// (with `--volumes` when requested) for the container, `network rm` and
    /// `volume rm` for the resources.
    pub fn args(&self) -> (r: Vec<String>)
        ensures
            strs_view(r@) == (match self {
                CleanupTarget::Container { name, remove_volumes } => {
                    if *remove_volumes {
                        seq!["container"@, "rm"@, "--force"@, "--volumes"@, name@]
                    } else {
                        seq!["container"@, "rm"@, "--force"@, name@]
                    }
                },
                CleanupTarget::Network(n) => seq!["network"@, "rm"@, n@],
                CleanupTarget::Volume(n) => seq!["volume"@, "rm"@, n@],
            }),
    {
        match self {
            CleanupTarget::Container { name, remove_volumes } => {
                let mut out: Vec<String> = Vec::new();
                push_str_vec(&mut out, "container");
                push_str_vec(&mut out, "rm");
                push_str_vec(&mut out, "--force");
                if *remove_volumes {
                    push_str_vec(&mut out, "--volumes");
                }
                push_string_vec(&mut out, name.clone());
                proof {
                    if *remove_volumes {
                        assert(strs_view(out@) =~= seq![
                            "container"@,
                            "rm"@,
                            "--force"@,
                            "--volumes"@,
                            name@,
                        ]);
                    } else {
                        assert(strs_view(out@) =~= seq!["container"@, "rm"@, "--force"@, name@]);
                    }
                }
                out
            },
            CleanupTarget::Network(n) => resource_remove_args(ResourceKind::Network, n.as_str()),
            CleanupTarget::Volume(n) => resource_remove_args(ResourceKind::Volume, n.as_str()),
        }
    }

    /// Classify this target's removal: success or absence is success; any
    /// other failure is a provider error naming the target.
    pub fn outcome(&self, out: &CmdOutput) -> (r: Result<(), DevcontainerError>)
        ensures
            r is Ok <==> cleanup_target_ok_spec(*self, *out),
            r matches Err(e) ==> e is Provider && e.message_spec() == cleanup_failure_message(
                *self,
                trim_spec(out.stderr@),
            ),
    {
        if out.success {
            return Ok(());
        }
        let pattern: &str = match self {
            CleanupTarget::Container { .. } => "No such container",
            CleanupTarget::Network(_) => "No such network",
            CleanupTarget::Volume(_) => "No such volume",
        };
        if str_contains(out.stderr.as_str(), pattern) {
            return Ok(());
        }
        let stderr = trim_str(out.stderr.as_str());
        let mut m: String = match self {
            CleanupTarget::Container { .. } => String::from_str("Failed to remove container "),
            CleanupTarget::Network(_) => String::from_str("Failed to remove docker network "),
            CleanupTarget::Volume(_) => String::from_str("Failed to remove docker volume "),
        };
        match self {
            CleanupTarget::Container { name, .. } => m.append(name.as_str()),
            CleanupTarget::Network(n) => m.append(n.as_str()),
            CleanupTarget::Volume(n) => m.append(n.as_str()),
        }
        m.append(": ");
        m.append(stderr.as_str());
        proof {
            assert(m@ =~= cleanup_failure_message(*self, trim_spec(out.stderr@)));
        }
        Err(DevcontainerError::Provider(m))
    }
}

/// Law: cleanup tolerates absence. Whenever the engine's answer to a
/// removal carries the target's "does not exist" pattern, the cleanup step
/// counts as success, never as an error.
pub proof fn lemma_cleanup_tolerates_absence(t: CleanupTarget, out: CmdOutput)
    requires
        contains_seq(out.stderr@, cleanup_absence_pattern_spec(t)),
    ensures
        cleanup_target_ok_spec(t, out),
{
}

/// Law: cleanup against wholly absent resources succeeds. When every
/// removal of the plan — the container, each declared network, and each
/// declared volume when volume removal was requested — comes back with the
/// matching "does not exist" answer, every step of the plan classifies as
/// success, so a cleanup run driving the plan in order returns no error.
pub proof fn lemma_cleanup_absent_everywhere(
    prep: ProviderPreparation,
    options: ProviderCleanupOptions,
    outs: Seq<CmdOutput>,
)
    requires
        outs.len() == cleanup_plan_spec(prep, options).len(),
        forall|i: int|
            0 <= i < outs.len() ==> contains_seq(
                outs[i].stderr@,
                cleanup_absence_pattern_spec(cleanup_plan_spec(prep, options)[i]),
            ),
    ensures
        forall|i: int|
            0 <= i < outs.len() ==> cleanup_target_ok_spec(
                cleanup_plan_spec(prep, options)[i],
                outs[i],
            ),
{
}

/// Law: stopping tolerates absence. A stop whose answer says the container
/// does not exist or is not running counts as success.
pub proof fn lemma_stop_tolerates_absence(out: CmdOutput)
    requires
        contains_seq(out.stderr@, "No such container"@) || contains_seq(
            out.stderr@,
            "is not running"@,
        ),
    ensures
        stop_ok_spec(out),
{
}

/// Law: reconciliation tolerates absence. Inspecting a missing resource is
/// handled without error (it leads to creating the resource).
pub proof fn lemma_reconcile_tolerates_absence(kind: ResourceKind, out: CmdOutput)
    requires
        contains_seq(out.stderr@, kind.absence_pattern_spec()),
    ensures
        reconcile_ok_spec(kind, out),
{
}

/// The argument vector that checks the engine is reachable:
/// `version --format {{.Server.Version}}`.
pub fn version_args() -> (r: Vec<String>)
    ensures
        strs_view(r@) == seq!["version"@, "--format"@, "{{.Server.Version}}"@],
{
    let mut out: Vec<String> = Vec::new();
    push_str_vec(&mut out, "version");
    push_str_vec(&mut out, "--format");
    push_str_vec(&mut out, "{{.Server.Version}}");
    proof {
        assert(strs_view(out@) =~= seq!["version"@, "--format"@, "{{.Server.Version}}"@]);
    }
    out
}

/// The error text when the engine executable is unreachable.
pub open spec fn verify_binary_failure_message(
    program: Seq<char>,
    stderr_trimmed: Seq<char>,
) -> Seq<char> {
    "Failed to execute '"@ + program + " --version': "@ + stderr_trimmed
}

/// Classify the engine reachability check.
pub fn verify_binary_outcome(program: &str, out: &CmdOutput) -> (r: Result<
    (),
    DevcontainerError,
>)
    ensures
        r is Ok <==> out.success,
        r matches Err(e) ==> e is Provider && e.message_spec() == verify_binary_failure_message(
            program@,
            trim_spec(out.stderr@),
        ),
{
    if out.success {
        return Ok(());
    }
    let stderr = trim_str(out.stderr.as_str());
    let mut m = String::from_str("Failed to execute '");
    m.append(program);
    m.append(" --version': ");
    m.append(stderr.as_str());
    proof {
        assert(m@ =~= verify_binary_failure_message(program@, trim_spec(out.stderr@)));
    }
    Err(DevcontainerError::Provider(m))
}

/// The provider error for a subprocess that could not be spawned at all.
pub fn spawn_failure_error(command_line: &str, err: &str) -> (r: DevcontainerError)
    ensures
        r is Provider,
        r.message_spec() == "Failed to spawn '"@ + command_line@ + "': "@ + err@,
{
    let mut m = String::from_str("Failed to spawn '");
    m.append(command_line);
    m.append("': ");
    m.append(err);
    proof {
        assert(m@ =~= "Failed to spawn '"@ + command_line@ + "': "@ + err@);
    }
    DevcontainerError::Provider(m)
}

/// The provider error for an engine executable that could not be found on
/// the search path.
pub fn locate_failure_error(path: &str, err: &str) -> (r: DevcontainerError)
    ensures
        r is Provider,
        r.message_spec() == "Failed to locate docker binary '"@ + path@ + "': "@ + err@,
{
    let mut m = String::from_str("Failed to locate docker binary '");
    m.append(path);
    m.append("': ");
    m.append(err);
    proof {
        assert(m@ =~= "Failed to locate docker binary '"@ + path@ + "': "@ + err@);
    }
    DevcontainerError::Provider(m)
}

} // verus!



