//! Decisions of the deployer worker: which executor a deployment needs, the
//! arguments it is run with, and the status reports sent back.

use vstd::prelude::*;
use crate::error::{error_detail, error_label, AgentError};
use crate::text::{contains_char, owned, starts_with, str_eq};

verus! {

/// Executors of pending deployments.
#[derive(Debug, Clone, Copy, PartialEq, Eq, Structural)]
pub enum DeploymentKind {
    Docker,
    Git,
    DockerCompose,
}

/// The executor for a deployment type: `docker`, `git` or `docker_compose`;
/// any other type is a deployment error.
pub fn parse_deployment_kind(kind: &str) -> (r: Result<DeploymentKind, AgentError>)
    ensures
        kind@ == "docker"@ ==> r == Ok::<DeploymentKind, AgentError>(DeploymentKind::Docker),
        kind@ == "git"@ ==> r == Ok::<DeploymentKind, AgentError>(DeploymentKind::Git),
        kind@ == "docker_compose"@ ==> r == Ok::<DeploymentKind, AgentError>(
            DeploymentKind::DockerCompose,
        ),
        kind@ != "docker"@ && kind@ != "git"@ && kind@ != "docker_compose"@ ==> r is Err
            && r->Err_0 is DeployError && error_detail(r->Err_0) == "Unsupported deployment type: "@
            + kind@,
{
    proof {
        reveal_strlit("docker");
        reveal_strlit("git");
        reveal_strlit("docker_compose");
        assert("docker"@.len() != "git"@.len() && "docker"@.len() != "docker_compose"@.len()
            && "git"@.len() != "docker_compose"@.len());
    }
    if str_eq(kind, "docker") {
        Ok(DeploymentKind::Docker)
    } else if str_eq(kind, "git") {
        Ok(DeploymentKind::Git)
    } else if str_eq(kind, "docker_compose") {
        Ok(DeploymentKind::DockerCompose)
    } else {
        Err(AgentError::DeployError(owned("Unsupported deployment type: ").concat(kind)))
    }
}

/// `image` with `tag` appended, unless the image already names a tag (holds a
/// `:`) or no tag is given.
pub open spec fn image_ref(image: Seq<char>, tag: Seq<char>) -> Seq<char> {
    if image.contains(':') || tag.len() == 0 {
        image
    } else {
        image + ":"@ + tag
    }
}

/// The image reference that is pulled and run.
pub fn full_image(image: &str, tag: &str) -> (r: String)
    ensures
        r@ == image_ref(image@, tag@),
{
    if contains_char(image, ':') || tag.unicode_len() == 0 {
        owned(image)
    } else {
        owned(image).concat(":").concat(tag)
    }
}

/// Start of the last `/`-separated part of `s` at or before `i`.
pub open spec fn last_part_start(s: Seq<char>, i: int) -> int
    decreases i,
{
    if i <= 0 {
        0
    } else if s[i - 1] == '/' {
        i
    } else {
        last_part_start(s, i - 1)
    }
}

/// End of the first `:`-separated part of `s` at or after `i`.
pub open spec fn first_part_end(s: Seq<char>, i: int) -> int
    decreases s.len() - i,
{
    if i >= s.len() || s[i] == ':' {
        i
    } else {
        first_part_end(s, i + 1)
    }
}

/// Container name of an image: its last path part, without the tag.
pub open spec fn container_name_of(image: Seq<char>) -> Seq<char> {
    let start = last_part_start(image, image.len() as int);
    image.subrange(start, first_part_end(image, start))
}

proof fn lemma_first_part_end(s: Seq<char>, i: int)
    requires
        0 <= i <= s.len(),
    ensures
        i <= first_part_end(s, i) <= s.len(),
    decreases s.len() - i,
{
    if i < s.len() && s[i] != ':' {
        lemma_first_part_end(s, i + 1);
    }
}

/// The name under which an image's container is stopped, removed and run.
pub fn container_name(image: &str) -> (r: String)
    ensures
        r@ == container_name_of(image@),
{
    let n = image.unicode_len();
    let mut start = n;
    while start > 0 && image.get_char(start - 1) != '/'
        invariant
            start <= n == image@.len(),
            last_part_start(image@, start as int) == last_part_start(image@, n as int),
        decreases start,
    {
        start = start - 1;
    }
    proof {
        lemma_first_part_end(image@, start as int);
    }
    let mut end = start;
    while end < n && image.get_char(end) != ':'
        invariant
            start <= end <= n == image@.len(),
            first_part_end(image@, end as int) == first_part_end(image@, start as int),
        decreases n - end,
    {
        end = end + 1;
    }
    owned(image.substring_char(start, end))
}

/// Whether pulling the image needs a login to GitHub's registry first.
pub fn needs_registry_login(image: &str) -> (r: bool)
    ensures
        r == ("ghcr.io/"@.len() <= image@.len() && image@.subrange(0, "ghcr.io/"@.len() as int)
            == "ghcr.io/"@),
{
    starts_with(image, "ghcr.io/")
}

/// Working directory of a deployment.
pub fn deployment_target_dir(deployment_id: &str) -> (r: String)
    ensures
        r@ == "/etc/ajime/deployments/"@ + deployment_id@,
{
    owned("/etc/ajime/deployments/").concat(deployment_id)
}

/// A configuration value, or its default when absent.
pub fn config_or(value: Option<&str>, default: &str) -> (r: String)
    ensures
        r@ == (match value {
            Some(v) => v@,
            None => default@,
        }),
{
    match value {
        Some(v) => owned(v),
        None => owned(default),
    }
}

/// Status written back for a deployment.
#[derive(Debug)]
pub struct DeploymentStatusUpdate {
    pub status: String,
    pub error_message: Option<String>,
}

/// Log line appended to a deployment.
#[derive(Debug)]
pub struct DeploymentLog {
    pub level: String,
    pub message: String,
}

/// The update sent before executing: `in_progress`.
pub fn in_progress_update() -> (r: DeploymentStatusUpdate)
    ensures
        r.status@ == "in_progress"@,
        r.error_message is None,
{
    DeploymentStatusUpdate { status: owned("in_progress"), error_message: None }
}

/// The first log line: `Starting <kind> deployment...`.
pub fn start_log(kind: &str) -> (r: DeploymentLog)
    ensures
        r.level@ == "info"@,
        r.message@ == "Starting "@ + kind@ + " deployment..."@,
{
    DeploymentLog { level: owned("info"), message: owned("Starting ").concat(kind).concat(" deployment...") }
}

/// The final status: `success`, or `failed` with the error's message.
pub fn outcome_update(result: &Result<(), AgentError>) -> (r: DeploymentStatusUpdate)
    ensures
        match result {
            Ok(_) => r.status@ == "success"@ && r.error_message is None,
            Err(e) => r.status@ == "failed"@ && r.error_message is Some && r.error_message->Some_0@
                == error_label(*e) + error_detail(*e),
        },
{
    match result {
        Ok(_) => DeploymentStatusUpdate { status: owned("success"), error_message: None },
        Err(e) => DeploymentStatusUpdate { status: owned("failed"), error_message: Some(e.to_message()) },
    }
}

/// The final log line.
pub fn outcome_log(result: &Result<(), AgentError>) -> (r: DeploymentLog)
    ensures
        match result {
            Ok(_) => r.level@ == "info"@ && r.message@ == "Deployment completed successfully!"@,
            Err(e) => r.level@ == "error"@ && r.message@ == "Deployment failed: "@ + error_label(*e)
                + error_detail(*e),
        },
{
    match result {
        Ok(_) => DeploymentLog { level: owned("info"), message: owned("Deployment completed successfully!") },
        Err(e) => DeploymentLog {
            level: owned("error"),
            message: owned("Deployment failed: ").concat(e.to_message().as_str()),
        },
    }
}

} // verus!
