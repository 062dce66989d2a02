use vstd::prelude::*;

verus! {

/// Longest name, in bytes, of a custom task classification.
pub const MAX_CUSTOM_TASK_LEN: usize = 64;

/// Largest emission weight, in percent.
pub const MAX_EMISSION_WEIGHT: u8 = 100;

/// Category of computational work that a subnet serves.
#[derive(Clone, Debug, PartialEq, Eq)]
pub enum TaskType {
    /// Code generation tasks (program synthesis, code completion).
    CodeGen,
    /// Image generation tasks (text-to-image, image editing).
    ImageGen,
    /// Protein folding and molecular structure prediction.
    ProteinFolding,
    /// Custom task type, named by at most `MAX_CUSTOM_TASK_LEN` bytes.
    Custom(Vec<u8>),
}

/// Mathematical form of a task classification.
pub enum TaskKind {
    CodeGen,
    ImageGen,
    ProteinFolding,
    Custom(Seq<u8>),
}

impl View for TaskType {
    type V = TaskKind;

    open spec fn view(&self) -> TaskKind {
        match self {
            TaskType::CodeGen => TaskKind::CodeGen,
            TaskType::ImageGen => TaskKind::ImageGen,
            TaskType::ProteinFolding => TaskKind::ProteinFolding,
            TaskType::Custom(name) => TaskKind::Custom(name@),
        }
    }
}

impl TaskType {
    /// A custom name fits its bound; the named kinds are always valid.
    pub open spec fn wf(&self) -> bool {
        match self {
            TaskType::Custom(name) => name@.len() <= MAX_CUSTOM_TASK_LEN,
            _ => true,
        }
    }

    /// Builds a custom classification, refusing a name longer than
    /// `MAX_CUSTOM_TASK_LEN` bytes.
    pub fn custom(name: Vec<u8>) -> (r: Option<TaskType>)
        ensures
            name@.len() <= MAX_CUSTOM_TASK_LEN <==> r is Some,
            r matches Some(t) ==> t.wf() && t@ == TaskKind::Custom(name@),
    {
        if name.len() <= MAX_CUSTOM_TASK_LEN {
            Some(TaskType::Custom(name))
        } else {
            None
        }
    }

    /// A copy with the same classification.
    pub fn duplicate(&self) -> (r: TaskType)
        ensures
            r@ == self@,
            r.wf() == self.wf(),
    {
        match self {
            TaskType::CodeGen => TaskType::CodeGen,
            TaskType::ImageGen => TaskType::ImageGen,
            TaskType::ProteinFolding => TaskType::ProteinFolding,
            TaskType::Custom(name) => {
                let copy = name.clone();
                assert(copy@ =~= name@);
                TaskType::Custom(copy)
            },
        }
    }
}

/// Lifecycle status of a subnet; it only ever moves from `Active` to `Retired`.
#[derive(Clone, Copy, Debug, PartialEq, Eq, Structural)]
pub enum SubnetStatus {
    /// The subnet accepts registrations and updates.
    Active,
    /// The subnet is retired: its fields are frozen.
    Retired,
}

/// One record of the registry.
#[derive(Clone, Debug, PartialEq, Eq)]
pub struct SubnetInfo {
    /// Identifier, assigned at creation.
    pub id: u32,
    /// Task classification.
    pub task_type: TaskType,
    /// Schema of the input data.
    pub input_schema: Vec<u8>,
    /// Schema of the output data.
    pub output_schema: Vec<u8>,
    /// URI of the evaluation specification.
    pub evaluation_spec: Vec<u8>,
    /// Share of network emissions, in percent.
    pub emission_weight: u8,
    /// Minimum stake for miners.
    pub min_stake_miner: u64,
    /// Minimum stake for validators.
    pub min_stake_validator: u64,
    /// Account that may update or retire the subnet.
    pub owner: u64,
    /// Lifecycle status.
    pub status: SubnetStatus,
}

/// Deployment constants of a registry.
#[derive(Clone, Copy, Debug, PartialEq, Eq, Structural)]
pub struct Config {
    /// Largest input or output schema, in bytes.
    pub max_schema_size: u32,
    /// Largest evaluation specification URI, in bytes.
    pub max_uri_size: u32,
    /// Largest number of subnets in the registry.
    pub max_subnets: u32,
    /// Largest number of subnets that one account may own.
    pub max_owned_subnets: u32,
    /// Deposit reserved from the owner's balance on creation.
    pub subnet_deposit: u64,
}

impl SubnetInfo {
    /// Every bounded field is within the bounds of `config`.
    pub open spec fn wf(&self, config: Config) -> bool {
        &&& self.task_type.wf()
        &&& self.input_schema@.len() <= config.max_schema_size
        &&& self.output_schema@.len() <= config.max_schema_size
        &&& self.evaluation_spec@.len() <= config.max_uri_size
        &&& self.emission_weight <= MAX_EMISSION_WEIGHT
    }

    /// The fields other than the status are those of `other`.
    pub open spec fn same_fields(&self, other: SubnetInfo) -> bool {
        &&& self.id == other.id
        &&& self.task_type@ == other.task_type@
        &&& self.input_schema@ == other.input_schema@
        &&& self.output_schema@ == other.output_schema@
        &&& self.evaluation_spec@ == other.evaluation_spec@
        &&& self.emission_weight == other.emission_weight
        &&& self.min_stake_miner == other.min_stake_miner
        &&& self.min_stake_validator == other.min_stake_validator
        &&& self.owner == other.owner
    }
}

/// Why a registry operation was refused.
#[derive(Clone, Copy, Debug, PartialEq, Eq, Structural)]
pub enum Error {
    /// No subnet has the given identifier.
    SubnetNotFound,
    /// The caller does not own the subnet.
    NotAuthorized,
    /// The subnet is retired.
    SubnetAlreadyRetired,
    /// The registry holds its largest number of subnets.
    TooManySubnets,
    /// A schema is longer than the configured bound.
    SchemaTooLarge,
    /// The evaluation specification URI is longer than the configured bound.
    UriTooLarge,
    /// The emission weight is above 100 percent.
    InvalidEmissionWeight,
    /// The caller owns its largest number of subnets.
    TooManyOwnedSubnets,
    /// The identifier counter would overflow.
    ArithmeticOverflow,
    /// The caller's free balance cannot cover the deposit.
    InsufficientBalance,
}

/// Notification of a committed change.
#[derive(Clone, Debug, PartialEq, Eq)]
pub enum Event {
    /// A new subnet was created.
    SubnetCreated { subnet_id: u32, owner: u64, task_type: TaskType },
    /// A subnet was updated.
    SubnetUpdated { subnet_id: u32, owner: u64 },
    /// A subnet was retired.
    SubnetRetired { subnet_id: u32, owner: u64 },
}

} // verus!
