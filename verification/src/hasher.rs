//! The Argon2 primitive, as the driver sees it.
//!
//! The driver never looks inside a hash. It needs to know three things
//! about the primitive: what exactly it is asked for, on which requests it
//! refuses to work, and that what it returns is determined by the request
//! alone.

use vstd::prelude::*;
use crate::trial::Trial;

verus! {

/// Fewest lanes that the primitive takes.
pub const MIN_PARALLELISM: u32 = 1;

/// Most lanes that the primitive takes.
pub const MAX_PARALLELISM: u32 = 0x00FF_FFFF;

/// Least memory cost that the primitive takes, whatever the lanes.
pub const MIN_MEMORY_COST: u32 = 8;

/// Memory cost that the primitive wants for each lane.
pub const MEMORY_COST_PER_LANE: u32 = 8;

/// Most memory cost that the primitive takes where addresses have 32 bits.
pub const MAX_MEMORY_COST_NARROW: u32 = 0x20_0000;

/// Fewest passes that the primitive takes.
pub const MIN_TIME_COST: u32 = 1;

/// Shortest salt, in bytes, that the primitive takes.
pub const MIN_SALT_LENGTH: u32 = 8;

/// Longest password, salt, secret or associated data, in bytes, that the
/// primitive takes.
pub const MAX_INPUT_LENGTH: u32 = 0xFFFF_FFFF;

/// Shortest digest, in bytes, that the primitive gives.
pub const MIN_HASH_LENGTH: u32 = 4;

/// Length in bytes of the digest that a trial asks for.
pub const STANDARD_HASH_LENGTH: u32 = 32;

/// The variants of Argon2.
#[derive(Clone, Copy, Debug, PartialEq, Eq, Structural)]
pub enum HashVariant {
    Argon2d,
    Argon2i,
    Argon2id,
}

/// The versions of Argon2: 0x10 and 0x13.
#[derive(Clone, Copy, Debug, PartialEq, Eq, Structural)]
pub enum HashVersion {
    Version10,
    Version13,
}

/// How the primitive spreads its lanes over threads: all on one thread, or
/// one thread for each lane.
#[derive(Clone, Copy, Debug, PartialEq, Eq, Structural)]
pub enum HashThreads {
    Sequential,
    Parallel,
}

/// All that the primitive is asked for, but for the password and the salt.
#[derive(Debug, PartialEq, Eq)]
pub struct HashRequest {
    pub variant: HashVariant,
    pub version: HashVersion,
    pub threads: HashThreads,
    pub trial: Trial,
    pub secret: Vec<u8>,
    pub associated_data: Vec<u8>,
    pub hash_length: u32,
}

/// A request as a value: the secret and the associated data by their bytes.
pub struct HashRequestView {
    pub variant: HashVariant,
    pub version: HashVersion,
    pub threads: HashThreads,
    pub trial: Trial,
    pub secret: Seq<u8>,
    pub associated_data: Seq<u8>,
    pub hash_length: u32,
}

impl View for HashRequest {
    type V = HashRequestView;

    open spec fn view(&self) -> HashRequestView {
        HashRequestView {
            variant: self.variant,
            version: self.version,
            threads: self.threads,
            trial: self.trial,
            secret: self.secret@,
            associated_data: self.associated_data@,
            hash_length: self.hash_length,
        }
    }
}

/// The one way in which hashing fails: the primitive refused a trial.
#[derive(Debug, PartialEq, Eq)]
pub struct HashingFailure {
    /// The refused trial.
    pub trial: Trial,
    /// The name under which the primitive reported its refusal.
    pub cause: String,
}

/// What every trial asks of the primitive: the Argon2id variant, version
/// 0x13, one thread for each lane, no secret, no associated data, a digest
/// of 32 bytes, and the costs of the trial.
pub open spec fn standard(trial: Trial) -> HashRequestView {
    HashRequestView {
        variant: HashVariant::Argon2id,
        version: HashVersion::Version13,
        threads: HashThreads::Parallel,
        trial,
        secret: Seq::empty(),
        associated_data: Seq::empty(),
        hash_length: STANDARD_HASH_LENGTH,
    }
}

/// The request that a trial makes.
pub fn standard_request(trial: Trial) -> (request: HashRequest)
    ensures
        request@ == standard(trial),
{
    HashRequest {
        variant: HashVariant::Argon2id,
        version: HashVersion::Version13,
        threads: HashThreads::Parallel,
        trial,
        secret: Vec::new(),
        associated_data: Vec::new(),
        hash_length: STANDARD_HASH_LENGTH,
    }
}

/// The encoded hash that Argon2 gives for a password, a salt and all the
/// settings of a request.
pub uninterp spec fn argon2_encoded(
    password: Seq<u8>,
    salt: Seq<u8>,
    variant: HashVariant,
    version: HashVersion,
    threads: HashThreads,
    memory_cost: u32,
    time_cost: u32,
    parallelism: u32,
    secret: Seq<u8>,
    associated_data: Seq<u8>,
    hash_length: u32,
) -> Seq<char>;

/// The most memory cost that the primitive takes on this machine.
pub open spec fn max_memory_cost() -> int {
    if usize::BITS == 32 {
        MAX_MEMORY_COST_NARROW as int
    } else {
        0xFFFF_FFFF
    }
}

/// The name of the error with which the primitive refuses a request, or
/// `None` where it takes it. The primitive looks at the lanes first, then
/// at the memory, the passes, the password, the salt, the secret, the
/// associated data and the digest, and reports the first that is out of
/// bounds.
pub open spec fn refusal_of(
    password_len: nat,
    salt_len: nat,
    memory_cost: u32,
    time_cost: u32,
    parallelism: u32,
    secret_len: nat,
    associated_data_len: nat,
    hash_length: u32,
) -> Option<Seq<char>> {
    if parallelism < MIN_PARALLELISM {
        Some("LanesTooFew"@)
    } else if parallelism > MAX_PARALLELISM {
        Some("LanesTooMany"@)
    } else if memory_cost < MIN_MEMORY_COST {
        Some("MemoryTooLittle"@)
    } else if memory_cost > max_memory_cost() {
        Some("MemoryTooMuch"@)
    } else if memory_cost < MEMORY_COST_PER_LANE * parallelism {
        Some("MemoryTooLittle"@)
    } else if time_cost < MIN_TIME_COST {
        Some("TimeTooSmall"@)
    } else if password_len > MAX_INPUT_LENGTH {
        Some("PwdTooLong"@)
    } else if salt_len < MIN_SALT_LENGTH {
        Some("SaltTooShort"@)
    } else if salt_len > MAX_INPUT_LENGTH {
        Some("SaltTooLong"@)
    } else if secret_len > MAX_INPUT_LENGTH {
        Some("SecretTooLong"@)
    } else if associated_data_len > MAX_INPUT_LENGTH {
        Some("AdTooLong"@)
    } else if hash_length < MIN_HASH_LENGTH {
        Some("OutputTooShort"@)
    } else {
        None
    }
}

/// Whether all that hashing holds in memory at once can be addressed on
/// this machine: the memory matrix of `memory_cost` kibibytes, unless the
/// primitive refuses that much, and the buffers in which the digest and the
/// encoded text are built.
pub open spec fn fits_of(salt_len: nat, memory_cost: u32, hash_length: u32) -> bool {
    &&& memory_cost * 1024 <= isize::MAX || memory_cost > max_memory_cost()
    &&& 8 * (salt_len + hash_length) + 1024 <= isize::MAX
}

/// The error name with which the primitive refuses `request`, if it does.
pub open spec fn refusal(password_len: nat, salt_len: nat, request: HashRequestView) -> Option<
    Seq<char>,
> {
    refusal_of(
        password_len,
        salt_len,
        request.trial.memory_cost,
        request.trial.time_cost,
        request.trial.parallelism,
        request.secret.len(),
        request.associated_data.len(),
        request.hash_length,
    )
}

/// Whether hashing `request` under a salt of `salt_len` bytes fits this
/// machine.
pub open spec fn fits(salt_len: nat, request: HashRequestView) -> bool {
    fits_of(salt_len, request.trial.memory_cost, request.hash_length)
}

/// The hash that the primitive gives for `request`.
pub open spec fn request_hash(password: Seq<u8>, salt: Seq<u8>, request: HashRequestView) -> Seq<
    char,
> {
    argon2_encoded(
        password,
        salt,
        request.variant,
        request.version,
        request.threads,
        request.trial.memory_cost,
        request.trial.time_cost,
        request.trial.parallelism,
        request.secret,
        request.associated_data,
        request.hash_length,
    )
}

/// Calls `argon2::hash_encoded` with a configuration that holds each
/// argument in the field of its name. An error comes back as the name of
/// its variant, as its derived `Debug` prints it.
///
/// Taken on trust from the source of `rust-argon2`:
/// - the call fails exactly where one of the checks of `Context::new` does,
///   with the error of the first check that fails; `refusal_of` repeats
///   those checks in their order, but for the ones that compare a length or
///   a cost with a bound that its type cannot pass;
/// - the encoded hash is a function of the arguments alone.
///
/// What `fits_of` asks keeps every allocation of the call within what a
/// vector can hold. A machine that cannot supply the memory or the threads
/// that a request asks for ends the call without a result; the contract
/// speaks of the calls that return.
#[verifier::external_body]
fn hash_encoded(
    password: &[u8],
    salt: &[u8],
    variant: HashVariant,
    version: HashVersion,
    threads: HashThreads,
    mem_cost: u32,
    time_cost: u32,
    lanes: u32,
    secret: &[u8],
    ad: &[u8],
    hash_length: u32,
) -> (outcome: Result<String, String>)
    requires
        fits_of(salt@.len(), mem_cost, hash_length),
    ensures
        match outcome {
            Ok(encoded) => {
                &&& refusal_of(
                    password@.len(),
                    salt@.len(),
                    mem_cost,
                    time_cost,
                    lanes,
                    secret@.len(),
                    ad@.len(),
                    hash_length,
                ) is None
                &&& encoded@ == argon2_encoded(
                    password@,
                    salt@,
                    variant,
                    version,
                    threads,
                    mem_cost,
                    time_cost,
                    lanes,
                    secret@,
                    ad@,
                    hash_length,
                )
            },
            Err(name) => refusal_of(
                password@.len(),
                salt@.len(),
                mem_cost,
                time_cost,
                lanes,
                secret@.len(),
                ad@.len(),
                hash_length,
            ) == Some(name@),
        },
{
    let variant = match variant {
        HashVariant::Argon2d => argon2::Variant::Argon2d,
        HashVariant::Argon2i => argon2::Variant::Argon2i,
        HashVariant::Argon2id => argon2::Variant::Argon2id,
    };
    let version = match version {
        HashVersion::Version10 => argon2::Version::Version10,
        HashVersion::Version13 => argon2::Version::Version13,
    };
    let thread_mode = match threads {
        HashThreads::Sequential => argon2::ThreadMode::Sequential,
        HashThreads::Parallel => argon2::ThreadMode::Parallel,
    };
    let config = argon2::Config { variant, version, thread_mode, mem_cost, time_cost, lanes, secret, ad, hash_length };
    argon2::hash_encoded(password, salt, &config).map_err(|error| format!("{:?}", error))
}

/// Tells whether hashing `request` under a salt of `salt_len` bytes fits
/// this machine.
pub fn request_fits(salt_len: usize, request: &HashRequest) -> (answer: bool)
    ensures
        answer == fits(salt_len as nat, request@),
{
    let word_max = isize::MAX as u128;
    let memory_cost = request.trial.memory_cost;
    let narrow = usize::BITS == 32;
    let matrix_fits = memory_cost as u128 * 1024 <= word_max || (narrow && memory_cost
        > MAX_MEMORY_COST_NARROW);
    let text_fits = 8 * (salt_len as u128 + request.hash_length as u128) + 1024 <= word_max;
    matrix_fits && text_fits
}

/// Asks the primitive for the hash of `password` under `salt` as `request`
/// says.
pub fn hash(password: &[u8], salt: &[u8], request: &HashRequest) -> (outcome: Result<
    String,
    String,
>)
    requires
        fits(salt@.len(), request@),
    ensures
        match outcome {
            Ok(encoded) => {
                &&& refusal(password@.len(), salt@.len(), request@) is None
                &&& encoded@ == request_hash(password@, salt@, request@)
            },
            Err(name) => refusal(password@.len(), salt@.len(), request@) == Some(name@),
        },
{
    hash_encoded(
        password,
        salt,
        request.variant,
        request.version,
        request.threads,
        request.trial.memory_cost,
        request.trial.time_cost,
        request.trial.parallelism,
        request.secret.as_slice(),
        request.associated_data.as_slice(),
        request.hash_length,
    )
}

/// Whether the primitive takes a password and a salt of the given lengths
/// together with the request of `trial`.
pub open spec fn accepts(password_len: nat, salt_len: nat, trial: Trial) -> bool {
    refusal(password_len, salt_len, standard(trial)) is None
}

/// Whether hashing `trial` under a salt of `salt_len` bytes fits this
/// machine.
pub open spec fn addressable(salt_len: nat, trial: Trial) -> bool {
    fits(salt_len, standard(trial))
}

/// Tells whether hashing `trial` under a salt of `salt_len` bytes fits this
/// machine.
pub fn is_addressable(salt_len: usize, trial: Trial) -> (answer: bool)
    ensures
        answer == addressable(salt_len as nat, trial),
{
    let request = standard_request(trial);
    request_fits(salt_len, &request)
}

/// The primitive takes exactly the trials whose costs, password and salt
/// are all within its bounds.
pub proof fn lemma_accepts_within_bounds(password_len: nat, salt_len: nat, trial: Trial)
    ensures
        accepts(password_len, salt_len, trial) <==> {
            &&& MIN_PARALLELISM <= trial.parallelism <= MAX_PARALLELISM
            &&& MIN_MEMORY_COST <= trial.memory_cost <= max_memory_cost()
            &&& trial.memory_cost >= MEMORY_COST_PER_LANE * trial.parallelism
            &&& trial.time_cost >= MIN_TIME_COST
            &&& password_len <= MAX_INPUT_LENGTH
            &&& MIN_SALT_LENGTH <= salt_len <= MAX_INPUT_LENGTH
        },
{
}

/// The primitive takes no trial that is not well formed: a memory cost, a
/// time cost or a parallelism of zero makes it refuse.
pub proof fn lemma_accepted_trial_is_well_formed(password_len: nat, salt_len: nat, trial: Trial)
    requires
        accepts(password_len, salt_len, trial),
    ensures
        trial.well_formed(),
{
}

} // verus!
