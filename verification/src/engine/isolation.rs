//! User namespace isolation.
//!
//! Root inside the container is mapped onto an unprivileged identity of the
//! host, so that privilege gained inside the container is worth nothing
//! outside. Creating the namespace set is one system call; the identity
//! mapping is then written to three control files, in a fixed order, and the
//! first write that fails ends the operation.

use crate::engine::namespace_cache::NamespaceTemplate;
use crate::text::{decimal, push_decimal};
use vstd::prelude::*;
use vstd::string::*;

verus! {

/// Flag of the user namespace (`CLONE_NEWUSER`).
pub const CLONE_NEWUSER: i32 = 0x1000_0000;

/// Flag of the network namespace (`CLONE_NEWNET`).
pub const CLONE_NEWNET: i32 = 0x4000_0000;

/// Flag of the mount namespace (`CLONE_NEWNS`).
pub const CLONE_NEWNS: i32 = 0x0002_0000;

/// Flag of the PID namespace (`CLONE_NEWPID`).
pub const CLONE_NEWPID: i32 = 0x2000_0000;

/// `nix::unistd::getuid`: the real user ID of the calling process. It
/// depends on who runs the process, so the contract says nothing of it.
#[verifier::external_body]
fn current_uid() -> (uid: u32) {
    nix::unistd::getuid().as_raw()
}

/// `nix::unistd::getgid`: the real group ID of the calling process. It
/// depends on who runs the process, so the contract says nothing of it.
#[verifier::external_body]
fn current_gid() -> (gid: u32) {
    nix::unistd::getgid().as_raw()
}

/// `nix::sched::unshare`: moves the calling process into new namespaces of
/// the kinds whose flags are set in `bits`. Whether the system allows it
/// depends on the process and the machine, so the contract says nothing of
/// the outcome. An error is the number of the `Errno` that came back.
#[verifier::external_body]
fn unshare_namespaces(bits: i32) -> (outcome: Result<(), i32>) {
    match nix::sched::unshare(nix::sched::CloneFlags::from_bits_retain(bits)) {
        Ok(()) => Ok(()),
        Err(errno) => Err(errno as i32),
    }
}

/// Configuration of the isolation of one process tree.
#[derive(Debug, Clone, Copy, PartialEq, Eq)]
pub struct IsolationConfig {
    /// Host UID that container root is mapped onto.
    pub host_uid: u32,
    /// Host GID that container root is mapped onto.
    pub host_gid: u32,
    /// Number of UIDs to map.
    pub uid_range: u32,
    /// Number of GIDs to map.
    pub gid_range: u32,
    /// Enable network namespace isolation.
    pub isolate_network: bool,
    /// Enable mount namespace isolation.
    pub isolate_mount: bool,
    /// Enable PID namespace isolation.
    pub isolate_pid: bool,
}

impl IsolationConfig {
    /// Both ranges map at least one ID.
    pub open spec fn valid(&self) -> bool {
        self.uid_range > 0 && self.gid_range > 0
    }

    /// Container root is mapped onto an identity without host privilege:
    /// neither the host UID nor the host GID is 0.
    pub open spec fn zero_trust(&self) -> bool {
        self.host_uid != 0 && self.host_gid != 0
    }

    /// The flags of the namespaces to create: always the user namespace, and
    /// each of the three others exactly if its toggle is set.
    pub open spec fn clone_flags(&self) -> i32 {
        CLONE_NEWUSER | (if self.isolate_network {
            CLONE_NEWNET
        } else {
            0i32
        }) | (if self.isolate_mount {
            CLONE_NEWNS
        } else {
            0i32
        }) | (if self.isolate_pid {
            CLONE_NEWPID
        } else {
            0i32
        })
    }

    /// The configuration that a template stands for, field by field.
    pub fn from_template(template: &NamespaceTemplate) -> (config: Self)
        ensures
            config.host_uid == template.host_uid,
            config.host_gid == template.host_gid,
            config.uid_range == template.uid_range,
            config.gid_range == template.gid_range,
            config.isolate_network == template.isolate_network,
            config.isolate_mount == template.isolate_mount,
            config.isolate_pid == template.isolate_pid,
            config.valid() == template.valid(),
    {
        Self {
            host_uid: template.host_uid,
            host_gid: template.host_gid,
            uid_range: template.uid_range,
            gid_range: template.gid_range,
            isolate_network: template.isolate_network,
            isolate_mount: template.isolate_mount,
            isolate_pid: template.isolate_pid,
        }
    }
}

impl Default for IsolationConfig {
    /// The identity of the calling process, full ID ranges, and network,
    /// mount and PID isolation.
    fn default() -> (config: Self)
        ensures
            config.uid_range == 65536,
            config.gid_range == 65536,
            config.isolate_network,
            config.isolate_mount,
            config.isolate_pid,
            config.valid(),
    {
        Self {
            host_uid: current_uid(),
            host_gid: current_gid(),
            uid_range: 65536,
            gid_range: 65536,
            isolate_network: true,
            isolate_mount: true,
            isolate_pid: true,
        }
    }
}

/// The flag of the user namespace is set whatever the toggles say, and the
/// flag of each other namespace is set exactly if its toggle is.
pub proof fn lemma_clone_flags(config: IsolationConfig)
    ensures
        config.clone_flags() & CLONE_NEWUSER == CLONE_NEWUSER,
        (config.clone_flags() & CLONE_NEWNET == CLONE_NEWNET) == config.isolate_network,
        (config.clone_flags() & CLONE_NEWNS == CLONE_NEWNS) == config.isolate_mount,
        (config.clone_flags() & CLONE_NEWPID == CLONE_NEWPID) == config.isolate_pid,
{
    let n: i32 = if config.isolate_network {
        CLONE_NEWNET
    } else {
        0i32
    };
    let m: i32 = if config.isolate_mount {
        CLONE_NEWNS
    } else {
        0i32
    };
    let p: i32 = if config.isolate_pid {
        CLONE_NEWPID
    } else {
        0i32
    };
    let flags = config.clone_flags();
    assert(flags == 0x1000_0000i32 | n | m | p);
    assert((0x1000_0000i32 | n | m | p) & 0x1000_0000i32 == 0x1000_0000i32) by (bit_vector);
    assert(((0x1000_0000i32 | n | m | p) & 0x4000_0000i32 == 0x4000_0000i32) == (n == 0x4000_0000i32))
        by (bit_vector)
        requires
            n == 0x4000_0000i32 || n == 0i32,
            m == 0x0002_0000i32 || m == 0i32,
            p == 0x2000_0000i32 || p == 0i32,
    ;
    assert(((0x1000_0000i32 | n | m | p) & 0x0002_0000i32 == 0x0002_0000i32) == (m == 0x0002_0000i32))
        by (bit_vector)
        requires
            n == 0x4000_0000i32 || n == 0i32,
            m == 0x0002_0000i32 || m == 0i32,
            p == 0x2000_0000i32 || p == 0i32,
    ;
    assert(((0x1000_0000i32 | n | m | p) & 0x2000_0000i32 == 0x2000_0000i32) == (p == 0x2000_0000i32))
        by (bit_vector)
        requires
            n == 0x4000_0000i32 || n == 0i32,
            m == 0x0002_0000i32 || m == 0i32,
            p == 0x2000_0000i32 || p == 0i32,
    ;
}

/// An error of the operating system: its number, 0 where the system gave
/// none, and its description.
#[derive(Debug, PartialEq, Eq)]
pub struct OsError {
    pub code: i32,
    pub detail: String,
}

/// The three writes of the identity mapping, in the order in which they are
/// made.
#[derive(Debug, Clone, Copy, PartialEq, Eq, Structural)]
pub enum MappingStep {
    /// The UID mapping.
    UidMap,
    /// The denial of supplementary-group changes, which the kernel asks for
    /// before it takes a GID mapping.
    Setgroups,
    /// The GID mapping.
    GidMap,
}

impl MappingStep {
    /// The control file that the step writes.
    pub open spec fn spec_path(self) -> Seq<char> {
        match self {
            MappingStep::UidMap => "/proc/self/uid_map"@,
            MappingStep::Setgroups => "/proc/self/setgroups"@,
            MappingStep::GidMap => "/proc/self/gid_map"@,
        }
    }

    /// The step that follows, if there is one.
    pub open spec fn spec_next(self) -> Option<MappingStep> {
        match self {
            MappingStep::UidMap => Some(MappingStep::Setgroups),
            MappingStep::Setgroups => Some(MappingStep::GidMap),
            MappingStep::GidMap => None,
        }
    }

    /// The control file that the step writes.
    pub fn path(&self) -> (path: &'static str)
        ensures
            path@ == self.spec_path(),
    {
        match self {
            MappingStep::UidMap => "/proc/self/uid_map",
            MappingStep::Setgroups => "/proc/self/setgroups",
            MappingStep::GidMap => "/proc/self/gid_map",
        }
    }

    /// The step that follows, if there is one.
    pub fn next(&self) -> (next: Option<MappingStep>)
        ensures
            next == self.spec_next(),
    {
        match self {
            MappingStep::UidMap => Some(MappingStep::Setgroups),
            MappingStep::Setgroups => Some(MappingStep::GidMap),
            MappingStep::GidMap => None,
        }
    }
}

/// Why the isolation could not be put in place.
#[derive(Debug, PartialEq, Eq)]
pub enum IsolationError {
    /// A range of the configuration maps no ID at all.
    EmptyRange,
    /// The configuration maps container root onto host ID 0.
    PrivilegedIdentity,
    /// The system refused to create the namespaces; the number is its error.
    CreateNamespace { errno: i32 },
    /// A control file could not be written.
    WriteMapping { step: MappingStep, error: OsError },
    /// The mapping was given up before this step was made.
    Incomplete { step: MappingStep },
}

/// One write of a control file: the whole payload, in a single write.
#[derive(Debug, PartialEq, Eq)]
pub struct ControlWrite {
    pub path: String,
    pub payload: String,
}

/// The line that maps `range` IDs starting at `container_id` onto the host's
/// IDs starting at `host_id`.
pub open spec fn mapping_text(container_id: u32, host_id: u32, range: u32) -> Seq<char> {
    decimal(container_id as nat) + seq![' '] + decimal(host_id as nat) + seq![' '] + decimal(
        range as nat,
    ) + seq!['\n']
}

/// How far the identity mapping has come.
#[derive(Debug, PartialEq, Eq)]
pub enum MappingStage {
    /// The step is to be made next.
    Pending(MappingStep),
    /// All three writes were made.
    Done,
    /// A write failed; no further write is made.
    Failed(IsolationError),
}

impl MappingStage {
    /// The stage after the pending write came back with `outcome`. A success
    /// leads to the next step, or to the end after the last one; a failure
    /// ends the mapping with the error of the system. Once the mapping has
    /// ended nothing changes it.
    pub open spec fn after(self, outcome: Result<(), OsError>) -> MappingStage {
        match self {
            MappingStage::Pending(step) => match outcome {
                Ok(_) => match step.spec_next() {
                    Some(next) => MappingStage::Pending(next),
                    None => MappingStage::Done,
                },
                Err(error) => MappingStage::Failed(IsolationError::WriteMapping { step, error }),
            },
            _ => self,
        }
    }
}

/// The identity mapping of one namespace set, write by write.
pub struct MappingSession {
    config: IsolationConfig,
    stage: MappingStage,
}

impl MappingSession {
    /// The configuration that is being mapped.
    pub closed spec fn config(&self) -> IsolationConfig {
        self.config
    }

    /// How far the mapping has come.
    pub closed spec fn stage(&self) -> MappingStage {
        self.stage
    }

    /// What the step writes under the configuration.
    pub open spec fn spec_write(config: IsolationConfig, step: MappingStep) -> (Seq<char>, Seq<char>) {
        (
            step.spec_path(),
            match step {
                MappingStep::UidMap => mapping_text(0, config.host_uid, config.uid_range),
                MappingStep::Setgroups => "deny\n"@,
                MappingStep::GidMap => mapping_text(0, config.host_gid, config.gid_range),
            },
        )
    }

    /// The write to make next, if the mapping has not ended.
    pub fn next_write(&self) -> (write: Option<ControlWrite>)
        ensures
            write is Some == self.stage() is Pending,
            self.stage() matches MappingStage::Pending(step) ==> (write.unwrap().path@,
                write.unwrap().payload@) == Self::spec_write(self.config(), step),
    {
        match &self.stage {
            MappingStage::Pending(step) => Some(Isolation::write_for(&self.config, *step)),
            _ => None,
        }
    }

    /// Takes note of how the pending write went.
    pub fn record(&mut self, outcome: Result<(), OsError>)
        ensures
            final(self).config() == old(self).config(),
            final(self).stage() == old(self).stage().after(outcome),
    {
        let next = match &self.stage {
            MappingStage::Pending(step) => match outcome {
                Ok(_) => match step.next() {
                    Some(next) => Some(MappingStage::Pending(next)),
                    None => Some(MappingStage::Done),
                },
                Err(error) => Some(
                    MappingStage::Failed(IsolationError::WriteMapping { step: *step, error }),
                ),
            },
            _ => None,
        };
        if let Some(stage) = next {
            self.stage = stage;
        }
    }

    /// The outcome of the whole operation: a success once all three writes
    /// were made, the error of the write that failed, or the step at which
    /// the mapping was given up.
    pub fn finish(self) -> (outcome: Result<(), IsolationError>)
        ensures
            outcome == (match self.stage() {
                MappingStage::Done => Ok::<(), IsolationError>(()),
                MappingStage::Failed(error) => Err(error),
                MappingStage::Pending(step) => Err(IsolationError::Incomplete { step }),
            }),
    {
        match self.stage {
            MappingStage::Done => Ok(()),
            MappingStage::Failed(error) => Err(error),
            MappingStage::Pending(step) => Err(IsolationError::Incomplete { step }),
        }
    }
}

/// Isolation manager of one process tree.
pub struct Isolation {
    config: IsolationConfig,
}

impl Isolation {
    /// The configuration of the manager.
    pub closed spec fn spec_config(&self) -> IsolationConfig {
        self.config
    }

    /// A manager with the given configuration.
    pub fn new(config: IsolationConfig) -> (isolation: Self)
        ensures
            isolation.spec_config() == config,
    {
        Self { config }
    }

    /// A manager that maps container root onto the identity of the calling
    /// process, with full ID ranges and every isolation switched on.
    pub fn with_defaults() -> (isolation: Self)
        ensures
            isolation.spec_config().uid_range == 65536,
            isolation.spec_config().gid_range == 65536,
            isolation.spec_config().isolate_network,
            isolation.spec_config().isolate_mount,
            isolation.spec_config().isolate_pid,
    {
        Self::new(IsolationConfig::default())
    }

    /// The configuration of the manager.
    pub fn config(&self) -> (config: &IsolationConfig)
        ensures
            *config == self.spec_config(),
    {
        &self.config
    }

    /// The flags of the namespaces to create.
    pub fn clone_flags(&self) -> (bits: i32)
        ensures
            bits == self.spec_config().clone_flags(),
    {
        let mut bits: i32 = CLONE_NEWUSER;
        if self.config.isolate_network {
            bits = bits | CLONE_NEWNET;
        }
        if self.config.isolate_mount {
            bits = bits | CLONE_NEWNS;
        }
        if self.config.isolate_pid {
            bits = bits | CLONE_NEWPID;
        }
        proof {
            let n: i32 = if self.config.isolate_network {
                CLONE_NEWNET
            } else {
                0i32
            };
            let m: i32 = if self.config.isolate_mount {
                CLONE_NEWNS
            } else {
                0i32
            };
            let p: i32 = if self.config.isolate_pid {
                CLONE_NEWPID
            } else {
                0i32
            };
            assert(forall|x: i32| #[trigger] (x | 0i32) == x) by (bit_vector);
            assert(bits == CLONE_NEWUSER | n | m | p);
        }
        bits
    }

    /// The line `"<container_id> <host_id> <range>"` and a line feed.
    pub fn mapping_line(container_id: u32, host_id: u32, range: u32) -> (line: String)
        ensures
            line@ == mapping_text(container_id, host_id, range),
    {
        proof {
            reveal_strlit(" ");
            reveal_strlit("\n");
        }
        let mut line = String::new();
        push_decimal(&mut line, container_id as u64);
        line.append(" ");
        push_decimal(&mut line, host_id as u64);
        line.append(" ");
        push_decimal(&mut line, range as u64);
        line.append("\n");
        assert(" "@ =~= seq![' ']);
        assert("\n"@ =~= seq!['\n']);
        assert(line@ =~= mapping_text(container_id, host_id, range));
        line
    }

    /// What the step writes under the configuration: the UID mapping
    /// `"0 <host_uid> <uid_range>"`, the word `deny`, or the GID mapping
    /// `"0 <host_gid> <gid_range>"`, each with a line feed.
    pub fn write_for(config: &IsolationConfig, step: MappingStep) -> (write: ControlWrite)
        ensures
            (write.path@, write.payload@) == MappingSession::spec_write(*config, step),
    {
        let payload = match step {
            MappingStep::UidMap => Self::mapping_line(0, config.host_uid, config.uid_range),
            MappingStep::Setgroups => String::from_str("deny\n"),
            MappingStep::GidMap => Self::mapping_line(0, config.host_gid, config.gid_range),
        };
        ControlWrite { path: String::from_str(step.path()), payload }
    }

    /// Whether the configuration may be put in place at all.
    pub fn check(&self) -> (outcome: Result<(), IsolationError>)
        ensures
            outcome == (if !self.spec_config().valid() {
                Err::<(), IsolationError>(IsolationError::EmptyRange)
            } else if !self.spec_config().zero_trust() {
                Err(IsolationError::PrivilegedIdentity)
            } else {
                Ok(())
            }),
    {
        if self.config.uid_range == 0 || self.config.gid_range == 0 {
            Err(IsolationError::EmptyRange)
        } else if self.config.host_uid == 0 || self.config.host_gid == 0 {
            Err(IsolationError::PrivilegedIdentity)
        } else {
            Ok(())
        }
    }

    /// Creates the namespaces of the configuration for the calling process
    /// and opens the identity mapping.
    ///
    /// A configuration with an empty range, or one that maps container root
    /// onto host ID 0, is refused before anything is changed. Otherwise the
    /// system is asked for the namespaces; whether it grants them is not for
    /// this library to say. What is returned for each answer of the system is
    /// stated by [`after_unshare`](Self::after_unshare).
    pub fn create_user_namespace(&self) -> (outcome: Result<MappingSession, IsolationError>)
        ensures
            !self.spec_config().valid() ==> outcome == Err::<MappingSession, IsolationError>(
                IsolationError::EmptyRange,
            ),
            self.spec_config().valid() && !self.spec_config().zero_trust() ==> outcome == Err::<
                MappingSession,
                IsolationError,
            >(IsolationError::PrivilegedIdentity),
            outcome matches Err(IsolationError::EmptyRange) ==> !self.spec_config().valid(),
            outcome matches Err(IsolationError::PrivilegedIdentity) ==> self.spec_config().valid()
                && !self.spec_config().zero_trust(),
            outcome matches Ok(session) ==> session.config() == self.spec_config()
                && session.stage() == MappingStage::Pending(MappingStep::UidMap),
            outcome matches Err(error) ==> error is EmptyRange || error is PrivilegedIdentity
                || error is CreateNamespace,
    {
        match self.check() {
            Err(error) => Err(error),
            Ok(_) => {
                let answer = unshare_namespaces(self.clone_flags());
                self.after_unshare(answer)
            },
        }
    }

    /// What follows from the system's answer to the request for namespaces:
    /// on a grant, the identity mapping starts at its first write; on a
    /// refusal, the operation ends with the system's error. The system is
    /// asked for a configuration that [`check`](Self::check) lets pass, and
    /// for no other.
    pub fn after_unshare(&self, answer: Result<(), i32>) -> (outcome: Result<
        MappingSession,
        IsolationError,
    >)
        requires
            self.spec_config().valid(),
            self.spec_config().zero_trust(),
        ensures
            answer is Ok ==> (outcome matches Ok(session) && session.config() == self.spec_config()
                && session.stage() == MappingStage::Pending(MappingStep::UidMap)),
            answer matches Err(errno) ==> outcome == Err::<MappingSession, IsolationError>(
                IsolationError::CreateNamespace { errno },
            ),
    {
        match answer {
            Ok(_) => Ok(
                MappingSession {
                    config: self.config,
                    stage: MappingStage::Pending(MappingStep::UidMap),
                },
            ),
            Err(errno) => Err(IsolationError::CreateNamespace { errno }),
        }
    }
}

/// The three writes are made in the order UID mapping, setgroups denial, GID
/// mapping, and the mapping is done exactly when all three succeeded.
pub proof fn lemma_mapping_order(first: Result<(), OsError>, second: Result<(), OsError>, third: Result<(), OsError>)
    ensures
        ({
            let start = MappingStage::Pending(MappingStep::UidMap);
            let one = start.after(first);
            let two = one.after(second);
            let three = two.after(third);
            &&& first is Ok ==> one == MappingStage::Pending(MappingStep::Setgroups)
            &&& first is Ok && second is Ok ==> two == MappingStage::Pending(MappingStep::GidMap)
            &&& three is Done <==> first is Ok && second is Ok && third is Ok
            &&& !(first is Ok) ==> three == one && one is Failed
            &&& first is Ok && !(second is Ok) ==> three == two && two is Failed
        }),
{
}

/// A failed write ends the mapping: whatever is recorded afterwards, the
/// stage stays the failure, so no further write is handed out.
pub proof fn lemma_failure_is_final(stage: MappingStage, outcome: Result<(), OsError>)
    requires
        stage is Failed || stage is Done,
    ensures
        stage.after(outcome) == stage,
{
}

} // verus!
