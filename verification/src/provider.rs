//! The provider contract: the capability interface a container-engine
//! backend implements, and the value types flowing across it.

use vstd::prelude::*;

use crate::config::ResolvedConfig;
use crate::errors::DevcontainerError;

verus! {

/// Which backend a provider is.
#[derive(Debug, Clone, Copy, PartialEq, Eq)]
pub enum ProviderKind {
    Docker,
    Podman,
    Mock,
}

/// Optional capabilities a backend may support.
#[derive(Debug, Clone, Copy, PartialEq, Eq)]
pub struct ProviderCapabilities {
    pub supports_features: bool,
    pub supports_templates: bool,
    pub supports_attach: bool,
}

impl Default for ProviderCapabilities {
    /// No optional capability.
    fn default() -> (r: Self)
        ensures
            !r.supports_features,
            !r.supports_templates,
            !r.supports_attach,
    {
        ProviderCapabilities {
            supports_features: false,
            supports_templates: false,
            supports_attach: false,
        }
    }
}

/// Where an image is built from.
#[derive(Debug, Clone, PartialEq, Eq)]
pub struct ProviderBuildContext {
    pub dockerfile: String,
    pub build_context: String,
    pub tag: String,
}

/// The image a container is created from: a direct reference, or a build.
#[derive(Debug, Clone, PartialEq, Eq)]
pub enum ProviderImage {
    Reference(String),
    Build(ProviderBuildContext),
}

impl ProviderImage {
    /// The reference this image is known under once available: the direct
    /// reference, or the build's tag.
    pub open spec fn reference_spec(&self) -> Seq<char> {
        match self {
            ProviderImage::Reference(value) => value@,
            ProviderImage::Build(build) => build.tag@,
        }
    }

    /// The reference this image is known under once available.
    pub fn reference(&self) -> (r: &str)
        ensures
            r@ == self.reference_spec(),
    {
        match self {
            ProviderImage::Reference(value) => value.as_str(),
            ProviderImage::Build(build) => build.tag.as_str(),
        }
    }
}

/// A named volume and where it mounts inside the container.
#[derive(Debug, Clone, PartialEq, Eq)]
pub struct VolumeSpec {
    pub name: String,
    pub mount_path: String,
}

/// Engine-specific provisioning metadata, computed once per run.
#[derive(Debug, Clone, PartialEq, Eq)]
pub struct ProviderPreparation {
    pub image: ProviderImage,
    pub container_name: String,
    /// Sanitized project name: lowercase alphanumerics plus `-_.`, no
    /// leading or trailing hyphen, non-empty.
    pub project_slug: String,
    pub networks: Vec<String>,
    pub volumes: Vec<VolumeSpec>,
    pub workspace_mount_path: String,
}

/// The provider-assigned identity of a provisioned container. At least one
/// of the two fields must be present for later operations to succeed.
#[derive(Debug, Clone, PartialEq, Eq)]
pub struct RunningContainer {
    pub id: Option<String>,
    pub name: Option<String>,
}

impl Default for RunningContainer {
    /// No identity.
    fn default() -> (r: Self)
        ensures
            r.id is None,
            r.name is None,
    {
        RunningContainer { id: None, name: None }
    }
}

/// The outcome of a command run inside a container.
#[derive(Debug, Clone, PartialEq, Eq)]
pub struct ExecResult {
    pub exit_code: i32,
    pub stdout: String,
    pub stderr: String,
}

impl Default for ExecResult {
    /// A zero-effort success.
    fn default() -> (r: Self)
        ensures
            r.exit_code == 0,
            r.stdout@.len() == 0,
            r.stderr@.len() == 0,
    {
        ExecResult { exit_code: 0, stdout: String::new(), stderr: String::new() }
    }
}

/// What cleanup removes besides the container itself.
#[derive(Debug, Clone, Copy, PartialEq, Eq)]
pub struct ProviderCleanupOptions {
    pub remove_volumes: bool,
    /// Reserved for orphan-resource sweeping; a minimal backend may treat it
    /// as a no-op with a warning.
    pub remove_unknown: bool,
}

impl Default for ProviderCleanupOptions {
    /// Remove the container only.
    fn default() -> (r: Self)
        ensures
            !r.remove_volumes,
            !r.remove_unknown,
    {
        ProviderCleanupOptions { remove_volumes: false, remove_unknown: false }
    }
}

/// The abstract capability a container-engine backend provides. Each
/// operation may block on external work and returns a typed error on
/// failure; idempotent reconciliation operations treat a resource's absence
/// as success.
pub trait Provider {
    /// Which backend this is.
    fn kind(&self) -> ProviderKind;

    /// The backend's optional capabilities.
    fn capabilities(&self) -> ProviderCapabilities {
        ProviderCapabilities {
            supports_features: false,
            supports_templates: false,
            supports_attach: false,
        }
    }

    /// Validate preconditions and compute all naming and mounting decisions
    /// from the configuration.
    fn prepare(&self, config: &ResolvedConfig) -> Result<ProviderPreparation, DevcontainerError>;

    /// Ensure each named network exists: present is a no-op, absent is
    /// created.
    fn ensure_networks(
        &self,
        config: &ResolvedConfig,
        preparation: &ProviderPreparation,
    ) -> Result<(), DevcontainerError>;

    /// Ensure each declared volume exists: present is a no-op, absent is
    /// created.
    fn ensure_volumes(
        &self,
        config: &ResolvedConfig,
        preparation: &ProviderPreparation,
    ) -> Result<(), DevcontainerError>;

    /// Make the prepared image available and return its reference.
    fn build_image(
        &self,
        config: &ResolvedConfig,
        preparation: &ProviderPreparation,
    ) -> Result<String, DevcontainerError>;

    /// Create the container from the image, replacing any stale container of
    /// the same name.
    fn create_container(
        &self,
        config: &ResolvedConfig,
        preparation: &ProviderPreparation,
        image_reference: &str,
    ) -> Result<RunningContainer, DevcontainerError>;

    /// Start the container, by name or id.
    fn start_container(&self, container: &RunningContainer) -> Result<(), DevcontainerError>;

    /// Run a command inside the running container; an empty argument vector
    /// is a zero-effort success.
    fn exec(
        &self,
        container: &RunningContainer,
        command: &Vec<String>,
    ) -> Result<ExecResult, DevcontainerError>;

    /// Stop the container; already stopped or missing is success.
    fn stop_container(
        &self,
        config: &ResolvedConfig,
        preparation: &ProviderPreparation,
        container: &RunningContainer,
    ) -> Result<(), DevcontainerError>;

    /// Remove the container and its declared resources; absence of any of
    /// them is success.
    fn cleanup(
        &self,
        config: &ResolvedConfig,
        preparation: &ProviderPreparation,
        options: &ProviderCleanupOptions,
    ) -> Result<(), DevcontainerError>;
}

} // verus!
