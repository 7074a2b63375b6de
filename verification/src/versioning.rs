//! How a worker identifies the build of the code that it runs.
use vstd::prelude::*;

verus! {

/// What happens to a workflow when the current version of its deployment changes.
#[derive(Clone, Copy, Debug, PartialEq, Eq, Structural)]
pub enum VersioningBehavior {
    Unspecified,
    Pinned,
    AutoUpgrade,
}

impl VersioningBehavior {
    /// The number that stands for the behavior on the wire.
    pub open spec fn spec_number(self) -> i32 {
        match self {
            VersioningBehavior::Unspecified => 0,
            VersioningBehavior::Pinned => 1,
            VersioningBehavior::AutoUpgrade => 2,
        }
    }

    /// The number that stands for the behavior on the wire.
    pub fn number(self) -> (n: i32)
        ensures
            n == self.spec_number(),
    {
        match self {
            VersioningBehavior::Unspecified => 0,
            VersioningBehavior::Pinned => 1,
            VersioningBehavior::AutoUpgrade => 2,
        }
    }
}

/// Whether a worker takes part in versioning.
#[derive(Clone, Copy, Debug, PartialEq, Eq, Structural)]
pub enum WorkerVersioningMode {
    Unspecified,
    Unversioned,
    Versioned,
}

impl WorkerVersioningMode {
    /// The number that stands for the mode on the wire.
    pub open spec fn spec_number(self) -> i32 {
        match self {
            WorkerVersioningMode::Unspecified => 0,
            WorkerVersioningMode::Unversioned => 1,
            WorkerVersioningMode::Versioned => 2,
        }
    }

    /// The number that stands for the mode on the wire.
    pub fn number(self) -> (n: i32)
        ensures
            n == self.spec_number(),
    {
        match self {
            WorkerVersioningMode::Unspecified => 0,
            WorkerVersioningMode::Unversioned => 1,
            WorkerVersioningMode::Versioned => 2,
        }
    }
}

/// A build of the worker's code, within a named deployment.
#[derive(Clone, Debug, PartialEq, Eq)]
pub struct WorkerDeploymentVersion {
    pub deployment_name: String,
    pub build_id: String,
}

/// Options of deployment-based versioning.
#[derive(Clone, Debug, PartialEq, Eq)]
pub struct WorkerDeploymentOptions {
    /// The version that this worker runs.
    pub version: WorkerDeploymentVersion,
    /// Whether the worker takes part in versioning, or only names its version.
    pub use_worker_versioning: bool,
    /// The behavior of workflows that do not choose one themselves.
    pub default_versioning_behavior: Option<VersioningBehavior>,
}

/// The strategy by which a worker is versioned.
#[derive(Clone, Debug, PartialEq, Eq)]
pub enum WorkerVersioningStrategy {
    /// No versioning. The build id may still identify the worker, or be empty.
    Unversioned { build_id: String },
    /// Deployment-based versioning.
    WorkerDeploymentBased(WorkerDeploymentOptions),
    /// Versioning of the whole worker by its build id.
    LegacyBuildIdBased { build_id: String },
}

impl WorkerVersioningStrategy {
    /// The build id that the strategy names.
    pub open spec fn spec_build_id(self) -> Seq<char> {
        match self {
            WorkerVersioningStrategy::Unversioned { build_id } => build_id@,
            WorkerVersioningStrategy::WorkerDeploymentBased(options) => options.version.build_id@,
            WorkerVersioningStrategy::LegacyBuildIdBased { build_id } => build_id@,
        }
    }

    /// The build id that the strategy names.
    pub fn build_id(&self) -> (id: &String)
        ensures
            id@ == self.spec_build_id(),
    {
        match self {
            WorkerVersioningStrategy::Unversioned { build_id } => build_id,
            WorkerVersioningStrategy::WorkerDeploymentBased(options) => &options.version.build_id,
            WorkerVersioningStrategy::LegacyBuildIdBased { build_id } => build_id,
        }
    }

    /// Whether the whole worker is versioned by its build id.
    pub fn uses_build_id_based(&self) -> (b: bool)
        ensures
            b == (*self is LegacyBuildIdBased),
    {
        match self {
            WorkerVersioningStrategy::LegacyBuildIdBased { .. } => true,
            _ => false,
        }
    }
}

} // verus!
