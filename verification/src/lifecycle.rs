//! Lifecycle planning and execution: the fixed six-phase plan derived from a
//! resolved configuration, and the strictly sequential executor that walks it
//! against a provider.

use vstd::prelude::*;

use crate::config::{view_opt, CommandArgs, CommandDefinition, ResolvedConfig};
use crate::errors::DevcontainerError;
use crate::provider::{ExecResult, Provider, RunningContainer};
use crate::strutil::{dec_i32_seq, trim_spec, i32_to_string, trim_str};

verus! {

/// One named stage of the lifecycle state machine.
#[derive(Debug, Clone, Copy, PartialEq, Eq)]
pub enum LifecyclePhase {
    Resolve,
    Build,
    Create,
    Start,
    PostCreate,
    PostAttach,
}

impl LifecyclePhase {
    /// The phase's display name.
    pub open spec fn name_spec(&self) -> Seq<char> {
        match self {
            LifecyclePhase::Resolve => "resolve"@,
            LifecyclePhase::Build => "build"@,
            LifecyclePhase::Create => "create"@,
            LifecyclePhase::Start => "start"@,
            LifecyclePhase::PostCreate => "postCreate"@,
            LifecyclePhase::PostAttach => "postAttach"@,
        }
    }

    /// The phase's display name.
    pub fn name(&self) -> (r: String)
        ensures
            r@ == self.name_spec(),
    {
        match self {
            LifecyclePhase::Resolve => String::from_str("resolve"),
            LifecyclePhase::Build => String::from_str("build"),
            LifecyclePhase::Create => String::from_str("create"),
            LifecyclePhase::Start => String::from_str("start"),
            LifecyclePhase::PostCreate => String::from_str("postCreate"),
            LifecyclePhase::PostAttach => String::from_str("postAttach"),
        }
    }
}

/// The two user-hook phases.
#[derive(Debug, Clone, Copy, PartialEq, Eq)]
pub enum LifecycleHook {
    PostCreate,
    PostAttach,
}

impl LifecycleHook {
    /// The hook's display name.
    pub open spec fn name_spec(&self) -> Seq<char> {
        match self {
            LifecycleHook::PostCreate => "postCreate"@,
            LifecycleHook::PostAttach => "postAttach"@,
        }
    }

    /// The hook's display name.
    pub fn name(&self) -> (r: String)
        ensures
            r@ == self.name_spec(),
    {
        match self {
            LifecycleHook::PostCreate => String::from_str("postCreate"),
            LifecycleHook::PostAttach => String::from_str("postAttach"),
        }
    }
}

/// Whether a hook phase runs its command or is skipped, and why.
#[derive(Debug, Clone, PartialEq, Eq)]
pub enum HookAction {
    Execute,
    Skip { reason: String },
}

/// A planned event: a stable machine-readable code, a human-readable
/// message, and a structured detail payload.
#[derive(Debug, Clone, PartialEq, Eq)]
pub struct LifecycleEvent {
    pub code: String,
    pub message: String,
    pub detail: LifecycleEventDetail,
}

impl LifecycleEvent {
    /// An event with the given code, message and detail.
    pub fn new(code: &str, message: String, detail: LifecycleEventDetail) -> (r: Self)
        ensures
            r.code@ == code@,
            r.message == message,
            r.detail == detail,
    {
        LifecycleEvent { code: String::from_str(code), message, detail }
    }
}

/// The structured payload of a planned event.
#[derive(Debug, Clone, PartialEq, Eq)]
pub enum LifecycleEventDetail {
    ResolveConfig { config_path: String },
    BuildImage { image_reference: Option<String> },
    CreateContainer { project_name: String, workspace_folder: String },
    StartContainer { project_name: String },
    Hook { hook: LifecycleHook, action: HookAction },
}

/// One step of a plan: a phase and its event.
#[derive(Debug, Clone, PartialEq, Eq)]
pub struct LifecycleStep {
    pub phase: LifecyclePhase,
    pub event: LifecycleEvent,
}

/// An ordered sequence of lifecycle steps.
#[derive(Debug, Clone, PartialEq, Eq)]
pub struct LifecyclePlan {
    pub steps: Vec<LifecycleStep>,
}

impl Default for LifecyclePlan {
    /// The empty plan.
    fn default() -> (r: Self)
        ensures
            r.steps@.len() == 0,
    {
        LifecyclePlan { steps: Vec::new() }
    }
}

/// The plan has a step for the phase.
pub open spec fn has_phase(plan: LifecyclePlan, phase: LifecyclePhase) -> bool {
    exists|i: int| 0 <= i < plan.steps@.len() && plan.steps@[i].phase == phase
}

impl LifecyclePlan {
    /// The empty plan.
    pub fn new() -> (r: Self)
        ensures
            r.steps@.len() == 0,
    {
        LifecyclePlan { steps: Vec::new() }
    }

    /// Append a step for `phase` carrying `event`.
    pub fn push(&mut self, phase: LifecyclePhase, event: LifecycleEvent)
        ensures
            final(self).steps@ == old(self).steps@.push(LifecycleStep { phase, event }),
    {
        self.steps.push(LifecycleStep { phase, event });
    }

    /// The first step planned for `phase`, if any.
    pub fn step_for_phase(&self, phase: LifecyclePhase) -> (r: Option<&LifecycleStep>)
        ensures
            match r {
                Some(s) => exists|i: int|
                    {
                        &&& 0 <= i < self.steps@.len()
                        &&& self.steps@[i].phase == phase
                        &&& *s == self.steps@[i]
                        &&& forall|j: int| 0 <= j < i ==> self.steps@[j].phase != phase
                    },
                None => !has_phase(*self, phase),
            },
    {
        let n = self.steps.len();
        let mut i: usize = 0;
        while i < n
            invariant
                n == self.steps@.len(),
                i <= n,
                forall|j: int| 0 <= j < i ==> self.steps@[j].phase != phase,
            decreases n - i,
        {
            let step = &self.steps[i];
            if phase_eq(&step.phase, &phase) {
                return Some(step);
            }
            i = i + 1;
        }
        None
    }
}

/// Phase equality.
fn phase_eq(a: &LifecyclePhase, b: &LifecyclePhase) -> (r: bool)
    ensures
        r == (a == b),
{
    match (a, b) {
        (LifecyclePhase::Resolve, LifecyclePhase::Resolve) => true,
        (LifecyclePhase::Build, LifecyclePhase::Build) => true,
        (LifecyclePhase::Create, LifecyclePhase::Create) => true,
        (LifecyclePhase::Start, LifecyclePhase::Start) => true,
        (LifecyclePhase::PostCreate, LifecyclePhase::PostCreate) => true,
        (LifecyclePhase::PostAttach, LifecyclePhase::PostAttach) => true,
        _ => false,
    }
}

/// Options a caller hands to the planner: an optional reason to skip each
/// hook.
#[derive(Debug, Clone, PartialEq, Eq)]
pub struct LifecyclePlanOptions {
    pub skip_post_create: Option<String>,
    pub skip_post_attach: Option<String>,
}

impl Default for LifecyclePlanOptions {
    /// Skip nothing.
    fn default() -> (r: Self)
        ensures
            r.skip_post_create is None,
            r.skip_post_attach is None,
    {
        LifecyclePlanOptions { skip_post_create: None, skip_post_attach: None }
    }
}

/// The fixed reason a post-create hook is skipped when no command is set.
pub open spec fn no_post_create_reason() -> Seq<char> {
    "No postCreate command defined in configuration"@
}

/// The fixed reason a post-attach hook is skipped when no command is set.
pub open spec fn no_post_attach_reason() -> Seq<char> {
    "No postAttach command defined in configuration"@
}

/// The reason a hook is skipped, if it is: a caller-supplied reason wins;
/// else the fixed absent-command reason when the hook has no command; else
/// the hook executes (no reason).
pub open spec fn hook_skip_reason_spec(
    skip: Option<Seq<char>>,
    command_present: bool,
    absent_reason: Seq<char>,
) -> Option<Seq<char>> {
    if skip is Some {
        skip
    } else if !command_present {
        Some(absent_reason)
    } else {
        None
    }
}

/// The action equals the outcome `expect` describes: execution for `None`,
/// a skip carrying the reason for `Some`.
pub open spec fn action_matches(action: HookAction, expect: Option<Seq<char>>) -> bool {
    match action {
        HookAction::Execute => expect is None,
        HookAction::Skip { reason } => expect matches Some(e) && reason@ == e,
    }
}

/// Law: the three-way hook precedence. An explicit skip reason always wins,
/// regardless of command presence; without one, a hook with no command is
/// skipped for the fixed reason; otherwise the hook executes.
pub proof fn lemma_hook_action_precedence(
    skip: Option<Seq<char>>,
    command_present: bool,
    absent_reason: Seq<char>,
)
    ensures
        skip matches Some(r) ==> hook_skip_reason_spec(skip, command_present, absent_reason)
            == Some(r),
        skip is None && !command_present ==> hook_skip_reason_spec(
            skip,
            command_present,
            absent_reason,
        ) == Some(absent_reason),
        skip is None && command_present ==> hook_skip_reason_spec(
            skip,
            command_present,
            absent_reason,
        ) is None,
{
}

fn build_hook_step(
    hook: LifecycleHook,
    skip: Option<String>,
    command_present: bool,
    absent_reason: &str,
    code_run: &str,
    code_skip: &str,
) -> (r: LifecycleStep)
    ensures
        r.phase == (match hook {
            LifecycleHook::PostCreate => LifecyclePhase::PostCreate,
            LifecycleHook::PostAttach => LifecyclePhase::PostAttach,
        }),
        r.event.detail matches LifecycleEventDetail::Hook { hook: h, action } && h == hook
            && action_matches(
            action,
            hook_skip_reason_spec(view_opt(skip), command_present, absent_reason@),
        ),
        hook_skip_reason_spec(view_opt(skip), command_present, absent_reason@) is None ==> (
        r.event.code@ == code_run@ && r.event.message@ == "Run "@ + hook.name_spec()
            + " lifecycle hook"@),
        hook_skip_reason_spec(view_opt(skip), command_present, absent_reason@) matches Some(reason)
            ==> (r.event.code@ == code_skip@ && r.event.message@ == "Skip "@ + hook.name_spec()
            + " lifecycle hook ("@ + reason + ")"@),
{
    let reason: Option<String> = match skip {
        Some(rsn) => Some(rsn),
        None => {
            if !command_present {
                Some(String::from_str(absent_reason))
            } else {
                None
            }
        },
    };
    let phase = match hook {
        LifecycleHook::PostCreate => LifecyclePhase::PostCreate,
        LifecycleHook::PostAttach => LifecyclePhase::PostAttach,
    };
    match reason {
        None => {
            let mut message = String::from_str("Run ");
            message.append(hook.name().as_str());
            message.append(" lifecycle hook");
            proof {
                assert(message@ =~= "Run "@ + hook.name_spec() + " lifecycle hook"@);
            }
            LifecycleStep {
                phase,
                event: LifecycleEvent::new(
                    code_run,
                    message,
                    LifecycleEventDetail::Hook { hook, action: HookAction::Execute },
                ),
            }
        },
        Some(rsn) => {
            let mut message = String::from_str("Skip ");
            message.append(hook.name().as_str());
            message.append(" lifecycle hook (");
            message.append(rsn.as_str());
            message.append(")");
            proof {
                assert(message@ =~= "Skip "@ + hook.name_spec() + " lifecycle hook ("@ + rsn@
                    + ")"@);
            }
            LifecycleStep {
                phase,
                event: LifecycleEvent::new(
                    code_skip,
                    message,
                    LifecycleEventDetail::Hook { hook, action: HookAction::Skip { reason: rsn } },
                ),
            }
        },
    }
}

impl LifecyclePlan {
    /// Derive the plan for bringing a devcontainer up: exactly six steps, in
    /// the fixed order Resolve, Build, Create, Start, PostCreate, PostAttach.
    /// The build message distinguishes a pre-built image from a workspace
    /// build; each hook's action follows the three-way precedence of
    /// [`hook_skip_reason_spec`].
    pub fn for_up(config: &ResolvedConfig, options: LifecyclePlanOptions) -> (r: Self)
        ensures
            plan_is_canonical(r),
            r.steps@.len() == 6,
            r.steps@[0].phase == LifecyclePhase::Resolve,
            r.steps@[1].phase == LifecyclePhase::Build,
            r.steps@[2].phase == LifecyclePhase::Create,
            r.steps@[3].phase == LifecyclePhase::Start,
            r.steps@[4].phase == LifecyclePhase::PostCreate,
            r.steps@[5].phase == LifecyclePhase::PostAttach,
            r.steps@[0].event.code@ == "lifecycle.resolve.config"@,
            r.steps@[0].event.message@ == "Resolve devcontainer configuration from "@
                + config.config_path@,
            r.steps@[0].event.detail matches LifecycleEventDetail::ResolveConfig { config_path }
                && config_path@ == config.config_path@,
            r.steps@[1].event.code@ == "lifecycle.build.image"@,
            r.steps@[1].event.message@ == (match config.image_reference {
                Some(image) => "Ensure devcontainer image "@ + image@ + " is available"@,
                None => "Build devcontainer image from workspace configuration"@,
            }),
            r.steps@[1].event.detail matches LifecycleEventDetail::BuildImage { image_reference }
                && view_opt(image_reference) == view_opt(config.image_reference),
            r.steps@[2].event.code@ == "lifecycle.create.container"@,
            r.steps@[2].event.message@ == "Create container for project "@
                + config.project_name@,
            r.steps@[2].event.detail matches LifecycleEventDetail::CreateContainer {
                project_name,
                workspace_folder,
            } && project_name@ == config.project_name@ && workspace_folder@
                == config.workspace_folder@,
            r.steps@[3].event.code@ == "lifecycle.start.container"@,
            r.steps@[3].event.message@ == "Start container for project "@ + config.project_name@,
            r.steps@[3].event.detail matches LifecycleEventDetail::StartContainer { project_name }
                && project_name@ == config.project_name@,
            r.steps@[4].event.detail matches LifecycleEventDetail::Hook { hook, action } && hook
                == LifecycleHook::PostCreate && action_matches(
                action,
                hook_skip_reason_spec(
                    view_opt(options.skip_post_create),
                    config.post_create_command is Some,
                    no_post_create_reason(),
                ),
            ),
            r.steps@[5].event.detail matches LifecycleEventDetail::Hook { hook, action } && hook
                == LifecycleHook::PostAttach && action_matches(
                action,
                hook_skip_reason_spec(
                    view_opt(options.skip_post_attach),
                    config.post_attach_command is Some,
                    no_post_attach_reason(),
                ),
            ),
            (match hook_skip_reason_spec(
                view_opt(options.skip_post_create),
                config.post_create_command is Some,
                no_post_create_reason(),
            ) {
                None => r.steps@[4].event.code@ == "lifecycle.hook.postCreate"@
                    && r.steps@[4].event.message@ == "Run "@ + "postCreate"@
                    + " lifecycle hook"@,
                Some(reason) => r.steps@[4].event.code@ == "lifecycle.hook.postCreate.skip"@
                    && r.steps@[4].event.message@ == "Skip "@ + "postCreate"@
                    + " lifecycle hook ("@ + reason + ")"@,
            }),
            (match hook_skip_reason_spec(
                view_opt(options.skip_post_attach),
                config.post_attach_command is Some,
                no_post_attach_reason(),
            ) {
                None => r.steps@[5].event.code@ == "lifecycle.hook.postAttach"@
                    && r.steps@[5].event.message@ == "Run "@ + "postAttach"@
                    + " lifecycle hook"@,
                Some(reason) => r.steps@[5].event.code@ == "lifecycle.hook.postAttach.skip"@
                    && r.steps@[5].event.message@ == "Skip "@ + "postAttach"@
                    + " lifecycle hook ("@ + reason + ")"@,
            }),
    {
        let mut plan = LifecyclePlan::new();

        let mut resolve_message = String::from_str("Resolve devcontainer configuration from ");
        resolve_message.append(config.config_path.as_str());
        proof {
            assert(resolve_message@ =~= "Resolve devcontainer configuration from "@
                + config.config_path@);
        }
        plan.push(
            LifecyclePhase::Resolve,
            LifecycleEvent::new(
                "lifecycle.resolve.config",
                resolve_message,
                LifecycleEventDetail::ResolveConfig {
                    config_path: config.config_path.clone(),
                },
            ),
        );

        let build_message: String = match &config.image_reference {
            Some(image) => {
                let mut m = String::from_str("Ensure devcontainer image ");
                m.append(image.as_str());
                m.append(" is available");
                proof {
                    assert(m@ =~= "Ensure devcontainer image "@ + image@ + " is available"@);
                }
                m
            },
            None => String::from_str("Build devcontainer image from workspace configuration"),
        };
        let image_reference: Option<String> = match &config.image_reference {
            Some(image) => Some(image.clone()),
            None => None,
        };
        plan.push(
            LifecyclePhase::Build,
            LifecycleEvent::new(
                "lifecycle.build.image",
                build_message,
                LifecycleEventDetail::BuildImage { image_reference },
            ),
        );

        let mut create_message = String::from_str("Create container for project ");
        create_message.append(config.project_name.as_str());
        proof {
            assert(create_message@ =~= "Create container for project "@ + config.project_name@);
        }
        plan.push(
            LifecyclePhase::Create,
            LifecycleEvent::new(
                "lifecycle.create.container",
                create_message,
                LifecycleEventDetail::CreateContainer {
                    project_name: config.project_name.clone(),
                    workspace_folder: config.workspace_folder.clone(),
                },
            ),
        );

        let mut start_message = String::from_str("Start container for project ");
        start_message.append(config.project_name.as_str());
        proof {
            assert(start_message@ =~= "Start container for project "@ + config.project_name@);
        }
        plan.push(
            LifecyclePhase::Start,
            LifecycleEvent::new(
                "lifecycle.start.container",
                start_message,
                LifecycleEventDetail::StartContainer {
                    project_name: config.project_name.clone(),
                },
            ),
        );

        let LifecyclePlanOptions { skip_post_create, skip_post_attach } = options;

        let post_create_step = build_hook_step(
            LifecycleHook::PostCreate,
            skip_post_create,
            matches!(&config.post_create_command, Some(_)),
            "No postCreate command defined in configuration",
            "lifecycle.hook.postCreate",
            "lifecycle.hook.postCreate.skip",
        );
        plan.push(LifecyclePhase::PostCreate, post_create_step.event);

        let post_attach_step = build_hook_step(
            LifecycleHook::PostAttach,
            skip_post_attach,
            matches!(&config.post_attach_command, Some(_)),
            "No postAttach command defined in configuration",
            "lifecycle.hook.postAttach",
            "lifecycle.hook.postAttach.skip",
        );
        plan.push(LifecyclePhase::PostAttach, post_attach_step.event);

        plan
    }
}


/// The error text for a hook command that exited non-zero: the hook name,
/// the command's name for a named-parallel map, the exit code, and the
/// trimmed stderr when non-empty.
pub open spec fn hook_failure_message(
    hook: LifecycleHook,
    command_name: Option<Seq<char>>,
    exit_code: int,
    stderr_trimmed: Seq<char>,
) -> Seq<char> {
    let head = match command_name {
        Some(n) => hook.name_spec() + " command '"@ + n + "' failed with exit code "@
            + dec_i32_seq(exit_code),
        None => hook.name_spec() + " command failed with exit code "@ + dec_i32_seq(exit_code),
    };
    if stderr_trimmed.len() > 0 {
        head + " ("@ + stderr_trimmed + ")"@
    } else {
        head
    }
}

/// Classify one hook command's outcome: exit code zero is success; any other
/// exit code is a provider error carrying exactly the text of
/// [`hook_failure_message`]. This is the whole failure semantics of a hook,
/// stated over whatever the provider returned.
pub fn hook_exec_outcome(
    hook: LifecycleHook,
    command_name: Option<&String>,
    result: &ExecResult,
) -> (r: Result<(), DevcontainerError>)
    ensures
        r is Ok <==> result.exit_code == 0,
        r matches Err(e) ==> e is Provider && e.message_spec() == hook_failure_message(
            hook,
            match command_name {
                Some(n) => Some(n@),
                None => None,
            },
            result.exit_code as int,
            trim_spec(result.stderr@),
        ),
{
    if result.exit_code == 0 {
        return Ok(());
    }
    let code_text = i32_to_string(result.exit_code);
    let mut message = hook.name();
    match command_name {
        Some(n) => {
            message.append(" command '");
            message.append(n.as_str());
            message.append("' failed with exit code ");
            message.append(code_text.as_str());
            proof {
                assert(message@ =~= hook.name_spec() + " command '"@ + n@
                    + "' failed with exit code "@ + dec_i32_seq(result.exit_code as int));
            }
        },
        None => {
            message.append(" command failed with exit code ");
            message.append(code_text.as_str());
            proof {
                assert(message@ =~= hook.name_spec() + " command failed with exit code "@
                    + dec_i32_seq(result.exit_code as int));
            }
        },
    }
    let ghost head = message@;
    let stderr = trim_str(result.stderr.as_str());
    if stderr.as_str().unicode_len() > 0 {
        message.append(" (");
        message.append(stderr.as_str());
        message.append(")");
        proof {
            assert(message@ =~= head + " ("@ + trim_spec(result.stderr@) + ")"@);
        }
    }
    Err(DevcontainerError::Provider(message))
}

/// The running container handle plus the phases actually executed, in order.
#[derive(Debug, Clone, PartialEq, Eq)]
pub struct LifecycleOutcome {
    pub container: RunningContainer,
    pub executed_phases: Vec<LifecyclePhase>,
}

/// The phases a successful run executes: the four provisioning phases in
/// their fixed order, then each hook phase the plan contains.
pub open spec fn planned_phases_spec(plan: LifecyclePlan) -> Seq<LifecyclePhase> {
    let base = seq![
        LifecyclePhase::Resolve,
        LifecyclePhase::Build,
        LifecyclePhase::Create,
        LifecyclePhase::Start,
    ];
    let with_post_create = if has_phase(plan, LifecyclePhase::PostCreate) {
        base.push(LifecyclePhase::PostCreate)
    } else {
        base
    };
    if has_phase(plan, LifecyclePhase::PostAttach) {
        with_post_create.push(LifecyclePhase::PostAttach)
    } else {
        with_post_create
    }
}

/// Walks a plan phase by phase against one provider instance, strictly
/// sequentially: no phase begins before its predecessor completed.
pub struct LifecycleExecutor<P: Provider> {
    pub provider: P,
}

impl<P: Provider> LifecycleExecutor<P> {
    /// An executor over `provider`.
    pub fn new(provider: P) -> (r: Self)
        ensures
            r.provider == provider,
    {
        LifecycleExecutor { provider }
    }

    /// The provider this executor drives.
    pub fn provider(&self) -> (r: &P)
        ensures
            r == &self.provider,
    {
        &self.provider
    }

    /// Execute the plan: prepare, reconcile networks and volumes, build,
    /// create, start, then each hook phase the plan contains. The first
    /// failure aborts the run; on success the outcome lists exactly the
    /// planned phases, in order.
    pub fn execute(&self, config: &ResolvedConfig, plan: &LifecyclePlan) -> (r: Result<
        LifecycleOutcome,
        DevcontainerError,
    >)
        ensures
            r matches Ok(o) ==> o.executed_phases@ == planned_phases_spec(*plan),
    {
        let mut executed_phases: Vec<LifecyclePhase> = Vec::new();

        let preparation = match self.provider.prepare(config) {
            Ok(p) => p,
            Err(e) => {
                return Err(e);
            },
        };
        executed_phases.push(LifecyclePhase::Resolve);

        match self.provider.ensure_networks(config, &preparation) {
            Ok(()) => {},
            Err(e) => {
                return Err(e);
            },
        }
        match self.provider.ensure_volumes(config, &preparation) {
            Ok(()) => {},
            Err(e) => {
                return Err(e);
            },
        }

        let image_reference = match self.provider.build_image(config, &preparation) {
            Ok(i) => i,
            Err(e) => {
                return Err(e);
            },
        };
        executed_phases.push(LifecyclePhase::Build);

        let container = match self.provider.create_container(
            config,
            &preparation,
            image_reference.as_str(),
        ) {
            Ok(c) => c,
            Err(e) => {
                return Err(e);
            },
        };
        executed_phases.push(LifecyclePhase::Create);

        match self.provider.start_container(&container) {
            Ok(()) => {},
            Err(e) => {
                return Err(e);
            },
        }
        executed_phases.push(LifecyclePhase::Start);

        match plan.step_for_phase(LifecyclePhase::PostCreate) {
            Some(step) => {
                if let LifecycleEventDetail::Hook { hook: LifecycleHook::PostCreate, action } =
                    &step.event.detail {
                    match self.handle_hook(
                        LifecycleHook::PostCreate,
                        action,
                        config.post_create_command.as_ref(),
                        &container,
                    ) {
                        Ok(()) => {},
                        Err(e) => {
                            return Err(e);
                        },
                    }
                }
                executed_phases.push(LifecyclePhase::PostCreate);
            },
            None => {},
        }

        match plan.step_for_phase(LifecyclePhase::PostAttach) {
            Some(step) => {
                if let LifecycleEventDetail::Hook { hook: LifecycleHook::PostAttach, action } =
                    &step.event.detail {
                    match self.handle_hook(
                        LifecycleHook::PostAttach,
                        action,
                        config.post_attach_command.as_ref(),
                        &container,
                    ) {
                        Ok(()) => {},
                        Err(e) => {
                            return Err(e);
                        },
                    }
                }
                executed_phases.push(LifecyclePhase::PostAttach);
            },
            None => {},
        }

        proof {
            assert(executed_phases@ =~= planned_phases_spec(*plan));
        }
        Ok(LifecycleOutcome { container, executed_phases })
    }

    /// Run or skip one hook according to its planned action: a skipped hook
    /// does nothing; an executing hook with no resolved command does nothing.
    fn handle_hook(
        &self,
        hook: LifecycleHook,
        action: &HookAction,
        command: Option<&CommandDefinition>,
        container: &RunningContainer,
    ) -> Result<(), DevcontainerError> {
        match action {
            HookAction::Execute => {
                match command {
                    Some(cmd) => self.run_hook(container, hook, cmd),
                    None => Ok(()),
                }
            },
            HookAction::Skip { reason: _ } => Ok(()),
        }
    }

    /// Run a hook's command definition: a single command runs once; a
    /// named-parallel map runs one command per entry, in entry order,
    /// sequentially, each required to succeed before the next starts.
    fn run_hook(
        &self,
        container: &RunningContainer,
        hook: LifecycleHook,
        command: &CommandDefinition,
    ) -> Result<(), DevcontainerError> {
        match command {
            CommandDefinition::Single(cmd) => {
                self.run_hook_command(container, hook, None, cmd)
            },
            CommandDefinition::Parallel(commands) => {
                let n = commands.len();
                let mut i: usize = 0;
                while i < n
                    invariant
                        n == commands@.len(),
                        i <= n,
                    decreases n - i,
                {
                    let entry = &commands[i];
                    match self.run_hook_command(container, hook, Some(&entry.0), &entry.1) {
                        Ok(()) => {},
                        Err(e) => {
                            return Err(e);
                        },
                    }
                    i = i + 1;
                }
                Ok(())
            },
        }
    }

    /// Run one hook command through the provider and classify its outcome
    /// with [`hook_exec_outcome`].
    fn run_hook_command(
        &self,
        container: &RunningContainer,
        hook: LifecycleHook,
        command_name: Option<&String>,
        command: &CommandArgs,
    ) -> Result<(), DevcontainerError> {
        let args = command.to_exec_args();
        let result = match self.provider.exec(container, &args) {
            Ok(r) => r,
            Err(e) => {
                return Err(e);
            },
        };
        hook_exec_outcome(hook, command_name, &result)
    }
}


/// The plan invariant: the six phases appear in their fixed order, exactly
/// once each.
pub open spec fn plan_is_canonical(plan: LifecyclePlan) -> bool {
    &&& plan.steps@.len() == 6
    &&& plan.steps@[0].phase == LifecyclePhase::Resolve
    &&& plan.steps@[1].phase == LifecyclePhase::Build
    &&& plan.steps@[2].phase == LifecyclePhase::Create
    &&& plan.steps@[3].phase == LifecyclePhase::Start
    &&& plan.steps@[4].phase == LifecyclePhase::PostCreate
    &&& plan.steps@[5].phase == LifecyclePhase::PostAttach
}

/// Law: a canonical plan executes every phase. A successful execution of a
/// plan holding the six phases lists exactly Resolve, Build, Create, Start,
/// PostCreate, PostAttach, in that order.
pub proof fn lemma_canonical_plan_executes_all(plan: LifecyclePlan)
    requires
        plan_is_canonical(plan),
    ensures
        planned_phases_spec(plan) == seq![
            LifecyclePhase::Resolve,
            LifecyclePhase::Build,
            LifecyclePhase::Create,
            LifecyclePhase::Start,
            LifecyclePhase::PostCreate,
            LifecyclePhase::PostAttach,
        ],
{
    assert(has_phase(plan, LifecyclePhase::PostCreate)) by {
        assert(plan.steps@[4].phase == LifecyclePhase::PostCreate);
    }
    assert(has_phase(plan, LifecyclePhase::PostAttach)) by {
        assert(plan.steps@[5].phase == LifecyclePhase::PostAttach);
    }
    assert(planned_phases_spec(plan) =~= seq![
        LifecyclePhase::Resolve,
        LifecyclePhase::Build,
        LifecyclePhase::Create,
        LifecyclePhase::Start,
        LifecyclePhase::PostCreate,
        LifecyclePhase::PostAttach,
    ]);
}

} // verus!


