//! The container runtime driven through the `docker` command: which commands
//! to run and which files to write, in which order, and what to make of each
//! result. Running the commands and touching the files is the caller's part.

use vstd::prelude::*;
use crate::compose::{
    bind_project_volume, bound_to, service_entries, Compose, SERVICE_COUNT_REASON,
};
use crate::ident::{uuid_text, uuid_to_text};
use crate::repo::{ContainerId, ContainerInfo, EnvRecord, EnvSpec, Error, SharedResources};
use crate::text::{first_filled, first_filled_of, push_text, split_trimmed, texts, trimmed_lines};
use crate::util::{join_path, joined_path};

verus! {

/// The name of the Dockerfile inside the working directory.
pub const DOCKERFILE_NAME: &'static str = "dockerfile";

/// The name of the compose file inside the working directory.
pub const COMPOSE_NAME: &'static str = "compose.yml";

/// What is missing where `docker compose ps -q` prints no identifier.
pub const MISSING_CONTAINER_ID: &'static str = "container id from docker compose ps";

/// The working directory of the environment with the given identifier.
pub open spec fn work_dir_text(uuid: u128) -> Seq<char> {
    "/tmp/pwnenv-"@ + uuid_text(uuid) + "/"@
}

/// The compose file inside the working directory.
pub open spec fn compose_file_text(uuid: u128) -> Seq<char> {
    joined_path(work_dir_text(uuid), COMPOSE_NAME@)
}

/// The arguments of `docker` that build and start what `compose_file`
/// declares, detached.
pub open spec fn compose_up_args(compose_file: Seq<char>) -> Seq<Seq<char>> {
    seq!["compose"@, "-f"@, compose_file, "up"@, "--build"@, "-d"@]
}

/// The arguments of `docker` that print the identifiers of the containers of
/// `compose_file`, one per line.
pub open spec fn compose_ps_args(compose_file: Seq<char>) -> Seq<Seq<char>> {
    seq!["compose"@, "-f"@, compose_file, "ps"@, "-q"@]
}

/// The arguments of `docker` that stop the container.
pub open spec fn kill_args(container_id: Seq<char>) -> Seq<Seq<char>> {
    seq!["kill"@, container_id]
}

/// The arguments of `docker` that remove the stopped container.
pub open spec fn rm_args(container_id: Seq<char>) -> Seq<Seq<char>> {
    seq!["rm"@, container_id]
}

/// The arguments of `docker` that attach the terminal to the container.
pub open spec fn attach_args(container_id: Seq<char>) -> Seq<Seq<char>> {
    seq!["attach"@, container_id]
}

/// What the caller reports of the step it was asked to perform.
#[derive(Debug, PartialEq)]
pub enum Report {
    /// The file operation succeeded.
    Succeeded,
    /// The file or directory that the operation was to act on does not exist.
    NotFound,
    /// The operation failed, or the command could not be launched.
    Failed { reason: String },
    /// The compose document could not be parsed or written out as YAML.
    Malformed { reason: String },
    /// The compose template, read and parsed.
    Template(Compose),
    /// The command ran, and exited with or without success.
    Exited { success: bool },
    /// The command ran, and this is what it printed.
    Output { success: bool, stdout: String },
}

/// What the caller is to do next.
#[derive(Debug, PartialEq)]
pub enum Step {
    /// Remove the directory and all it holds.
    RemoveDir { path: String },
    /// Create the directory.
    CreateDir { path: String },
    /// Copy the file.
    CopyFile { from: String, to: String },
    /// Read the compose template and parse it.
    LoadCompose { path: String },
    /// Write the document out as YAML and flush it to the file.
    WriteCompose { path: String, compose: Compose },
    /// Run `docker` with these arguments on the caller's terminal.
    Run { args: Vec<String> },
    /// Run `docker` with these arguments and capture what it prints.
    Capture { args: Vec<String> },
    /// Provisioning is complete: this is the container.
    Provisioned(ContainerInfo),
    /// Teardown is complete.
    TornDown,
    /// Give up with this error.
    Abort(Error),
}

/// Where provisioning stands: the step whose report is awaited.
#[derive(Clone, Copy, Debug, PartialEq, Eq, Structural)]
pub enum ProvisionStage {
    ClearWorkdir,
    CreateWorkdir,
    CopyDockerfile,
    LoadCompose,
    WriteCompose,
    ComposeUp,
    QueryContainer,
    Finished,
}

/// Where teardown stands: the step whose report is awaited.
#[derive(Clone, Copy, Debug, PartialEq, Eq, Structural)]
pub enum TeardownStage {
    Stop,
    Remove,
    Clean,
    Finished,
}

/// The reason that a report of failure gives, or no text.
pub open spec fn reason_of(report: Report) -> Seq<char> {
    match report {
        Report::Failed { reason } => reason@,
        Report::Malformed { reason } => reason@,
        _ => Seq::<char>::empty(),
    }
}

/// Whether `step` gives up with an I/O error on `path` for the reason of
/// `report`.
pub open spec fn aborts_on_file(step: Step, path: Option<Seq<char>>, report: Report) -> bool {
    step matches Step::Abort(Error::Io { path: p, reason }) && reason@ == reason_of(report) && (
    match path {
        Some(text) => p matches Some(q) && q@ == text,
        None => p is None,
    })
}

/// Whether `step` gives up with the failure of the command `cmd` for the
/// reason of `report`.
pub open spec fn aborts_on_command(step: Step, cmd: Seq<char>, report: Report) -> bool {
    step matches Step::Abort(Error::Command { cmd: c, status, err }) && c@ == cmd && status is None
        && err@ == reason_of(report)
}

/// Whether `step` ends provisioning as the output of `docker compose ps -q`
/// demands: with the first line that is not blank as the container's
/// identifier, or with `NotFound` where every line is blank.
pub open spec fn concludes_from(step: Step, stdout: Seq<char>) -> bool {
    match first_filled(trimmed_lines(stdout)) {
        Some(id) => step matches Step::Provisioned(info) && info.container_id@ == id,
        None => step matches Step::Abort(Error::NotFound { what }) && what@
            == MISSING_CONTAINER_ID@,
    }
}

fn reason_text(report: Report) -> (r: String)
    ensures
        r@ == reason_of(report),
{
    match report {
        Report::Failed { reason } => reason,
        Report::Malformed { reason } => reason,
        _ => String::new(),
    }
}

fn abort_on_file(path: Option<String>, report: Report) -> (r: Step)
    ensures
        aborts_on_file(
            r,
            match path {
                Some(p) => Some(p@),
                None => None,
            },
            report,
        ),
{
    Step::Abort(Error::Io { path, reason: reason_text(report) })
}

fn command_error(cmd: &str, report: Report) -> (e: Error)
    ensures
        aborts_on_command(Step::Abort(e), cmd@, report),
{
    Error::Command { cmd: String::from_str(cmd), status: None, err: reason_text(report) }
}

fn abort_on_command(cmd: &str, report: Report) -> (r: Step)
    ensures
        aborts_on_command(r, cmd@, report),
{
    Step::Abort(command_error(cmd, report))
}

/// The identifier of the one container of a compose file, from what
/// `docker compose ps -q` printed: the first line that is not blank, without
/// the white space around it.
pub fn container_from_ps_output(stdout: &str) -> (r: Result<ContainerInfo, Error>)
    ensures
        match first_filled(trimmed_lines(stdout@)) {
            Some(id) => r matches Ok(info) && info.container_id@ == id,
            None => r matches Err(Error::NotFound { what }) && what@ == MISSING_CONTAINER_ID@,
        },
{
    let candidates = split_trimmed(stdout);
    match first_filled_of(&candidates) {
        Some(id) => Ok(ContainerInfo { container_id: ContainerId::from_str(id.as_str()) }),
        None => Err(Error::NotFound { what: String::from_str(MISSING_CONTAINER_ID) }),
    }
}

/// The plan of the docker runtime: it decides, and performs nothing.
pub struct DockerForContainerRuntime {}

impl DockerForContainerRuntime {
    pub fn new() -> Self {
        Self {}
    }

    /// The working directory of an environment, named after its identifier.
    pub fn work_dir(&self, uuid: u128) -> (r: String)
        ensures
            r@ == work_dir_text(uuid),
    {
        let name = uuid_to_text(uuid);
        String::from_str("/tmp/pwnenv-").concat(name.as_str()).concat("/")
    }

    /// The compose file that is generated for an environment.
    pub fn compose_file(&self, uuid: u128) -> (r: String)
        ensures
            r@ == compose_file_text(uuid),
    {
        join_path(self.work_dir(uuid).as_str(), COMPOSE_NAME)
    }

    /// The arguments of `docker` that build and start the container.
    pub fn compose_up_command(&self, compose_file: &str) -> (args: Vec<String>)
        ensures
            texts(args@) == compose_up_args(compose_file@),
    {
        let mut args: Vec<String> = Vec::new();
        assert(texts(args@) =~= Seq::<Seq<char>>::empty());
        push_text(&mut args, "compose");
        push_text(&mut args, "-f");
        push_text(&mut args, compose_file);
        push_text(&mut args, "up");
        push_text(&mut args, "--build");
        push_text(&mut args, "-d");
        assert(texts(args@) =~= compose_up_args(compose_file@));
        args
    }

    /// The arguments of `docker` that ask for the container's identifier.
    pub fn compose_ps_command(&self, compose_file: &str) -> (args: Vec<String>)
        ensures
            texts(args@) == compose_ps_args(compose_file@),
    {
        let mut args: Vec<String> = Vec::new();
        assert(texts(args@) =~= Seq::<Seq<char>>::empty());
        push_text(&mut args, "compose");
        push_text(&mut args, "-f");
        push_text(&mut args, compose_file);
        push_text(&mut args, "ps");
        push_text(&mut args, "-q");
        assert(texts(args@) =~= compose_ps_args(compose_file@));
        args
    }

    /// The arguments of `docker` that stop the container.
    pub fn kill_command(&self, container_id: &ContainerId) -> (args: Vec<String>)
        ensures
            texts(args@) == kill_args(container_id@),
    {
        let mut args: Vec<String> = Vec::new();
        assert(texts(args@) =~= Seq::<Seq<char>>::empty());
        push_text(&mut args, "kill");
        push_text(&mut args, container_id.to_string().as_str());
        assert(texts(args@) =~= kill_args(container_id@));
        args
    }

    /// The arguments of `docker` that remove the stopped container.
    pub fn rm_command(&self, container_id: &ContainerId) -> (args: Vec<String>)
        ensures
            texts(args@) == rm_args(container_id@),
    {
        let mut args: Vec<String> = Vec::new();
        assert(texts(args@) =~= Seq::<Seq<char>>::empty());
        push_text(&mut args, "rm");
        push_text(&mut args, container_id.to_string().as_str());
        assert(texts(args@) =~= rm_args(container_id@));
        args
    }

    /// The arguments of `docker` that attach the terminal to the container.
    pub fn attach_command(&self, container_id: &ContainerId) -> (args: Vec<String>)
        ensures
            texts(args@) == attach_args(container_id@),
    {
        let mut args: Vec<String> = Vec::new();
        assert(texts(args@) =~= Seq::<Seq<char>>::empty());
        push_text(&mut args, "attach");
        push_text(&mut args, container_id.to_string().as_str());
        assert(texts(args@) =~= attach_args(container_id@));
        args
    }

    /// Whether the terminal was attached, from the report of the attach
    /// command: it was if and only if the command ran and exited with
    /// success.
    pub fn attached(&self, report: Report) -> (r: Result<(), Error>)
        ensures
            r is Ok <==> (report matches Report::Exited { success: true }),
            r matches Err(e) ==> aborts_on_command(Step::Abort(e), "docker attach"@, report),
    {
        match report {
            Report::Exited { success: true } => Ok(()),
            other => Err(command_error("docker attach", other)),
        }
    }

    /// The first step of provisioning: clear away what an earlier run may
    /// have left of the working directory.
    pub fn provision_start(&self, env_spec: &EnvSpec) -> (r: (ProvisionStage, Step))
        ensures
            r.0 == ProvisionStage::ClearWorkdir,
            r.1 matches Step::RemoveDir { path } && path@ == work_dir_text(env_spec.uuid),
    {
        (ProvisionStage::ClearWorkdir, Step::RemoveDir { path: self.work_dir(env_spec.uuid) })
    }

    /// The step that follows the one awaited at `stage`, given its report.
    ///
    /// Provisioning clears and creates the working directory, copies the
    /// Dockerfile template into it, loads the compose template, binds its
    /// one service to the project directory and writes it out, builds and
    /// starts the container, and asks for its identifier. Each step is taken
    /// only after the one before it has succeeded; any other report ends
    /// provisioning with an error. No command is run for a template that
    /// does not declare exactly one service.
    pub fn provision_next(
        &self,
        shared_resources: &SharedResources,
        env_spec: &EnvSpec,
        stage: ProvisionStage,
        report: Report,
    ) -> (r: (ProvisionStage, Step))
        ensures
            provision_rule(*shared_resources, *env_spec, stage, report, r.0, r.1),
            r.1 is Run ==> stage == ProvisionStage::WriteCompose,
            r.1 is Capture ==> stage == ProvisionStage::ComposeUp,
            r.1 is WriteCompose ==> stage == ProvisionStage::LoadCompose && (
            report matches Report::Template(template) && service_entries(template.services).len()
                == 1),
            r.1 is Abort || r.1 is Provisioned <==> r.0 == ProvisionStage::Finished,
    {
        let uuid = env_spec.uuid;
        match stage {
            ProvisionStage::ClearWorkdir => match report {
                Report::Succeeded | Report::NotFound => (
                    ProvisionStage::CreateWorkdir,
                    Step::CreateDir { path: self.work_dir(uuid) },
                ),
                other => (
                    ProvisionStage::Finished,
                    abort_on_file(Some(self.work_dir(uuid)), other),
                ),
            },
            ProvisionStage::CreateWorkdir => match report {
                Report::Succeeded => (
                    ProvisionStage::CopyDockerfile,
                    Step::CopyFile {
                        from: shared_resources.dockerfile_template_absolute_path(),
                        to: join_path(self.work_dir(uuid).as_str(), DOCKERFILE_NAME),
                    },
                ),
                other => (
                    ProvisionStage::Finished,
                    abort_on_file(Some(self.work_dir(uuid)), other),
                ),
            },
            ProvisionStage::CopyDockerfile => match report {
                Report::Succeeded => (
                    ProvisionStage::LoadCompose,
                    Step::LoadCompose { path: shared_resources.compose_template_absolute_path() },
                ),
                other => (ProvisionStage::Finished, abort_on_file(None, other)),
            },
            ProvisionStage::LoadCompose => match report {
                Report::Template(template) => {
                    let mut compose = template;
                    match bind_project_volume(&mut compose, env_spec.project_path.as_str()) {
                        Ok(()) => (
                            ProvisionStage::WriteCompose,
                            Step::WriteCompose { path: self.compose_file(uuid), compose },
                        ),
                        Err(error) => (ProvisionStage::Finished, Step::Abort(error)),
                    }
                },
                Report::Malformed { reason } => (
                    ProvisionStage::Finished,
                    Step::Abort(Error::YamlSer { reason }),
                ),
                other => (
                    ProvisionStage::Finished,
                    abort_on_file(Some(shared_resources.compose_template_absolute_path()), other),
                ),
            },
            ProvisionStage::WriteCompose => match report {
                Report::Succeeded => (
                    ProvisionStage::ComposeUp,
                    Step::Run {
                        args: self.compose_up_command(self.compose_file(uuid).as_str()),
                    },
                ),
                Report::Malformed { reason } => (
                    ProvisionStage::Finished,
                    Step::Abort(Error::YamlDe { reason }),
                ),
                other => (
                    ProvisionStage::Finished,
                    abort_on_file(Some(self.compose_file(uuid)), other),
                ),
            },
            ProvisionStage::ComposeUp => match report {
                Report::Exited { success: true } => (
                    ProvisionStage::QueryContainer,
                    Step::Capture {
                        args: self.compose_ps_command(self.compose_file(uuid).as_str()),
                    },
                ),
                other => (ProvisionStage::Finished, abort_on_command("docker compose", other)),
            },
            ProvisionStage::QueryContainer => match report {
                Report::Output { success: true, stdout } => {
                    match container_from_ps_output(stdout.as_str()) {
                        Ok(info) => (ProvisionStage::Finished, Step::Provisioned(info)),
                        Err(error) => (ProvisionStage::Finished, Step::Abort(error)),
                    }
                },
                other => (ProvisionStage::Finished, abort_on_command("docker compose", other)),
            },
            ProvisionStage::Finished => (ProvisionStage::Finished, abort_on_file(None, report)),
        }
    }

    /// The first step of teardown: stop the container.
    pub fn teardown_start(&self, record: &EnvRecord) -> (r: (TeardownStage, Step))
        ensures
            r.0 == TeardownStage::Stop,
            r.1 matches Step::Run { args } && texts(args@) == kill_args(record@.container_id),
    {
        (
            TeardownStage::Stop,
            Step::Run { args: self.kill_command(&record.container_info.container_id) },
        )
    }

    /// The step that follows the one awaited at `stage`, given its report.
    ///
    /// Teardown stops the container, removes it, and removes the working
    /// directory. Each step is taken only after the one before it has
    /// succeeded; any other report ends teardown with an error that tells
    /// which step failed.
    pub fn teardown_next(&self, record: &EnvRecord, stage: TeardownStage, report: Report) -> (r: (
        TeardownStage,
        Step,
    ))
        ensures
            teardown_rule(*record, stage, report, r.0, r.1),
            r.1 is TornDown ==> stage == TeardownStage::Clean && report is Succeeded,
            r.1 is Abort || r.1 is TornDown <==> r.0 == TeardownStage::Finished,
    {
        match stage {
            TeardownStage::Stop => match report {
                Report::Exited { success: true } => (
                    TeardownStage::Remove,
                    Step::Run { args: self.rm_command(&record.container_info.container_id) },
                ),
                other => (TeardownStage::Finished, abort_on_command("docker kill", other)),
            },
            TeardownStage::Remove => match report {
                Report::Exited { success: true } => (
                    TeardownStage::Clean,
                    Step::RemoveDir { path: self.work_dir(record.spec.uuid) },
                ),
                other => (TeardownStage::Finished, abort_on_command("docker rm", other)),
            },
            TeardownStage::Clean => match report {
                Report::Succeeded => (TeardownStage::Finished, Step::TornDown),
                other => (
                    TeardownStage::Finished,
                    abort_on_file(Some(self.work_dir(record.spec.uuid)), other),
                ),
            },
            TeardownStage::Finished => (TeardownStage::Finished, abort_on_file(None, report)),
        }
    }
}

/// The rule of provisioning: whether, with `report` in at `stage`, the next
/// stage is `next` and the next step is `step`.
pub open spec fn provision_rule(
    shared_resources: SharedResources,
    env_spec: EnvSpec,
    stage: ProvisionStage,
    report: Report,
    next: ProvisionStage,
    step: Step,
) -> bool {
    let work_dir = work_dir_text(env_spec.uuid);
    let compose_file = compose_file_text(env_spec.uuid);
    let template_path = joined_path(
        shared_resources.shared_dir_path@,
        shared_resources.compose_template_relative_path@,
    );
    match stage {
        ProvisionStage::ClearWorkdir => if report is Succeeded || report is NotFound {
            next == ProvisionStage::CreateWorkdir && (step matches Step::CreateDir { path }
                && path@ == work_dir)
        } else {
            next == ProvisionStage::Finished && aborts_on_file(step, Some(work_dir), report)
        },
        ProvisionStage::CreateWorkdir => if report is Succeeded {
            next == ProvisionStage::CopyDockerfile && (step matches Step::CopyFile { from, to }
                && from@ == joined_path(
                shared_resources.shared_dir_path@,
                shared_resources.dockerfile_template_relative_path@,
            ) && to@ == joined_path(work_dir, DOCKERFILE_NAME@))
        } else {
            next == ProvisionStage::Finished && aborts_on_file(step, Some(work_dir), report)
        },
        ProvisionStage::CopyDockerfile => if report is Succeeded {
            next == ProvisionStage::LoadCompose && (step matches Step::LoadCompose { path }
                && path@ == template_path)
        } else {
            next == ProvisionStage::Finished && aborts_on_file(step, None, report)
        },
        ProvisionStage::LoadCompose => match report {
            Report::Template(template) => if service_entries(template.services).len() == 1 {
                next == ProvisionStage::WriteCompose && (step matches Step::WriteCompose {
                    path,
                    compose,
                } && path@ == compose_file && bound_to(template, compose, env_spec.project_path@))
            } else {
                next == ProvisionStage::Finished && (step matches Step::Abort(
                    Error::InvalidComposeConfig { reason },
                ) && reason@ == SERVICE_COUNT_REASON@)
            },
            Report::Malformed { reason } => next == ProvisionStage::Finished && (
            step matches Step::Abort(Error::YamlSer { reason: text }) && text@ == reason@),
            _ => next == ProvisionStage::Finished && aborts_on_file(
                step,
                Some(template_path),
                report,
            ),
        },
        ProvisionStage::WriteCompose => match report {
            Report::Succeeded => next == ProvisionStage::ComposeUp && (step matches Step::Run {
                args,
            } && texts(args@) == compose_up_args(compose_file)),
            Report::Malformed { reason } => next == ProvisionStage::Finished && (
            step matches Step::Abort(Error::YamlDe { reason: text }) && text@ == reason@),
            _ => next == ProvisionStage::Finished && aborts_on_file(
                step,
                Some(compose_file),
                report,
            ),
        },
        ProvisionStage::ComposeUp => match report {
            Report::Exited { success: true } => next == ProvisionStage::QueryContainer && (
            step matches Step::Capture { args } && texts(args@) == compose_ps_args(compose_file)),
            _ => next == ProvisionStage::Finished && aborts_on_command(
                step,
                "docker compose"@,
                report,
            ),
        },
        ProvisionStage::QueryContainer => match report {
            Report::Output { success: true, stdout } => next == ProvisionStage::Finished
                && concludes_from(step, stdout@),
            _ => next == ProvisionStage::Finished && aborts_on_command(
                step,
                "docker compose"@,
                report,
            ),
        },
        ProvisionStage::Finished => next == ProvisionStage::Finished && aborts_on_file(
            step,
            None,
            report,
        ),
    }
}

/// The rule of teardown: whether, with `report` in at `stage`, the next
/// stage is `next` and the next step is `step`.
pub open spec fn teardown_rule(
    record: EnvRecord,
    stage: TeardownStage,
    report: Report,
    next: TeardownStage,
    step: Step,
) -> bool {
    let stopped = report matches Report::Exited { success: true };
    match stage {
        TeardownStage::Stop => if stopped {
            next == TeardownStage::Remove && (step matches Step::Run { args } && texts(args@)
                == rm_args(record@.container_id))
        } else {
            next == TeardownStage::Finished && aborts_on_command(step, "docker kill"@, report)
        },
        TeardownStage::Remove => if stopped {
            next == TeardownStage::Clean && (step matches Step::RemoveDir { path } && path@
                == work_dir_text(record@.uuid))
        } else {
            next == TeardownStage::Finished && aborts_on_command(step, "docker rm"@, report)
        },
        TeardownStage::Clean => if report is Succeeded {
            next == TeardownStage::Finished && step is TornDown
        } else {
            next == TeardownStage::Finished && aborts_on_file(
                step,
                Some(work_dir_text(record@.uuid)),
                report,
            )
        },
        TeardownStage::Finished => next == TeardownStage::Finished && aborts_on_file(
            step,
            None,
            report,
        ),
    }
}

/// How far provisioning has come at a stage.
pub open spec fn progress(stage: ProvisionStage) -> nat {
    match stage {
        ProvisionStage::ClearWorkdir => 0,
        ProvisionStage::CreateWorkdir => 1,
        ProvisionStage::CopyDockerfile => 2,
        ProvisionStage::LoadCompose => 3,
        ProvisionStage::WriteCompose => 4,
        ProvisionStage::ComposeUp => 5,
        ProvisionStage::QueryContainer => 6,
        ProvisionStage::Finished => 7,
    }
}

/// Whether the step is a command for the container runtime.
pub open spec fn is_command(step: Step) -> bool {
    step is Run || step is Capture
}

/// Provisioning never skips a stage and never goes back: each step leads to
/// the next stage or ends provisioning.
pub proof fn lemma_provisioning_advances_by_one(
    shared_resources: SharedResources,
    env_spec: EnvSpec,
    stage: ProvisionStage,
    report: Report,
    next: ProvisionStage,
    step: Step,
)
    requires
        provision_rule(shared_resources, env_spec, stage, report, next, step),
    ensures
        next == ProvisionStage::Finished || progress(next) == progress(stage) + 1,
        next == ProvisionStage::Finished <==> step is Abort || step is Provisioned,
{
}

/// A compose template that does not declare exactly one service ends
/// provisioning: the document is written only for a template with exactly
/// one service, and no command is issued before the document is written.
pub proof fn lemma_no_command_without_single_service(
    shared_resources: SharedResources,
    env_spec: EnvSpec,
    stage: ProvisionStage,
    report: Report,
    next: ProvisionStage,
    step: Step,
)
    requires
        provision_rule(shared_resources, env_spec, stage, report, next, step),
    ensures
        is_command(step) ==> progress(stage) >= progress(ProvisionStage::WriteCompose),
        !is_command(step) ==> progress(next) <= progress(ProvisionStage::WriteCompose) || next
            == ProvisionStage::Finished,
        next == ProvisionStage::WriteCompose ==> (report matches Report::Template(template)
            && service_entries(template.services).len() == 1),
        stage == ProvisionStage::LoadCompose && (report matches Report::Template(template)
            && service_entries(template.services).len() != 1) ==> (step matches Step::Abort(
            Error::InvalidComposeConfig { reason },
        )),
{
}

/// One step of a provisioning run: the report that came in at a stage, and
/// what followed from it.
pub struct Transition {
    pub stage: ProvisionStage,
    pub report: Report,
    pub next: ProvisionStage,
    pub step: Step,
}

/// Whether `run` is a provisioning run from its start: every step follows
/// the rule, the first awaits the clearing of the working directory, and
/// each later one awaits what the step before it asked for.
pub open spec fn is_provisioning_run(
    shared_resources: SharedResources,
    env_spec: EnvSpec,
    run: Seq<Transition>,
) -> bool {
    &&& forall|i: int|
        0 <= i < run.len() ==> provision_rule(
            shared_resources,
            env_spec,
            (#[trigger] run[i]).stage,
            run[i].report,
            run[i].next,
            run[i].step,
        )
    &&& run.len() > 0 ==> run[0].stage == ProvisionStage::ClearWorkdir
    &&& forall|i: int| 0 < i < run.len() ==> (#[trigger] run[i]).stage == run[i - 1].next
}

/// In a run, a stage that is not the end was reached one stage at a time.
pub proof fn lemma_run_progress(
    shared_resources: SharedResources,
    env_spec: EnvSpec,
    run: Seq<Transition>,
    j: int,
    k: int,
)
    requires
        is_provisioning_run(shared_resources, env_spec, run),
        0 <= j <= k < run.len(),
        run[k].stage != ProvisionStage::Finished,
    ensures
        run[j].stage != ProvisionStage::Finished,
        progress(run[j].stage) + (k - j) == progress(run[k].stage),
    decreases k - j,
{
    if j < k {
        lemma_run_progress(shared_resources, env_spec, run, j + 1, k);
        assert(run[j + 1].stage == run[j].next);
        lemma_provisioning_advances_by_one(
            shared_resources,
            env_spec,
            run[j].stage,
            run[j].report,
            run[j].next,
            run[j].step,
        );
    }
}

/// No run issues a command for the container runtime unless, earlier in
/// that run, a compose template with exactly one service was loaded: a
/// template with no service, or with several, is refused before any command
/// is invoked.
pub proof fn lemma_commands_follow_a_single_service_template(
    shared_resources: SharedResources,
    env_spec: EnvSpec,
    run: Seq<Transition>,
    k: int,
)
    requires
        is_provisioning_run(shared_resources, env_spec, run),
        0 <= k < run.len(),
        is_command(run[k].step),
    ensures
        k > 3,
        run[3].stage == ProvisionStage::LoadCompose,
        run[3].report matches Report::Template(template) && service_entries(
            template.services,
        ).len() == 1,
{
    let t = run[k];
    assert(provision_rule(shared_resources, env_spec, t.stage, t.report, t.next, t.step));
    assert(t.stage == ProvisionStage::WriteCompose || t.stage == ProvisionStage::ComposeUp);
    lemma_run_progress(shared_resources, env_spec, run, 0, k);
    lemma_run_progress(shared_resources, env_spec, run, 3, k);
    lemma_run_progress(shared_resources, env_spec, run, 4, k);
    assert(run[4].stage == run[3].next);
    let u = run[3];
    assert(provision_rule(shared_resources, env_spec, u.stage, u.report, u.next, u.step));
}

/// Teardown reports each failing step by a different error: the command
/// that stops the container, the command that removes it, and the removal
/// of the working directory.
pub proof fn lemma_teardown_failures_differ(
    record: EnvRecord,
    stage: TeardownStage,
    report: Report,
    next: TeardownStage,
    step: Step,
)
    requires
        teardown_rule(record, stage, report, next, step),
        step is Abort,
    ensures
        stage == TeardownStage::Stop <==> aborts_on_command(step, "docker kill"@, report),
        stage == TeardownStage::Remove <==> aborts_on_command(step, "docker rm"@, report),
        stage == TeardownStage::Clean || stage == TeardownStage::Finished <==> (
        step matches Step::Abort(Error::Io { path, reason })),
{
    reveal_strlit("docker kill");
    reveal_strlit("docker rm");
    assert("docker kill"@.len() != "docker rm"@.len());
}

} // verus!
