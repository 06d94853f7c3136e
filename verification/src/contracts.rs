//! The identities and roles that evidence is bound to.
use std::hash::{BuildHasher, RandomState};
use vstd::prelude::*;
use crate::text::{
    chars_of, copy_texts, digit_of, hex_digits, number, number_of_prefix, push_hex, same_texts, texts,
};

verus! {

/// Logical role of the endpoint that produces frames.
#[derive(Clone, Copy, Debug, PartialEq, Eq, Structural)]
pub enum StreamRole {
    Rgb,
    Ir,
}

/// What is known of the light that a frame was exposed under.
#[derive(Clone, Copy, Debug, PartialEq, Eq, Structural)]
pub enum IlluminationProvenance {
    /// Nothing said whether the illuminator fired.
    Unknown,
    /// The illuminator did not fire.
    Ambient,
    /// The illuminator fired.
    ActiveIr,
}

/// Why a value cannot be an identity.
#[derive(Clone, Copy, Debug, PartialEq, Eq, Structural)]
pub enum ContractError {
    /// An instance id is not 32 hexadecimal digits, or all of them are zero.
    InvalidInstanceId,
    /// Generation zero names no lifecycle.
    InvalidGeneration,
    /// The generation counter cannot advance without wrapping.
    GenerationExhausted,
    /// A camera without a topology path cannot be told from another.
    EmptyTopologyPath,
    /// A camera without a stream role cannot be captured from.
    NoStreamRole,
}

/// Process-scoped identity of one incarnation of a physical camera: a nonzero 128-bit number,
/// written as 32 hexadecimal digits.
#[derive(Clone, Copy, Debug, PartialEq, Eq, Structural)]
pub struct CameraInstanceId {
    pub value: u128,
}

/// Sixteen to the power of `n`.
pub open spec fn sixteen_to(n: nat) -> int
    decreases n,
{
    if n == 0 {
        1
    } else {
        16 * sixteen_to((n - 1) as nat)
    }
}

proof fn sixteen_to_bounds()
    ensures
        sixteen_to(32) == 0x1_0000_0000_0000_0000_0000_0000_0000_0000,
{
    reveal_with_fuel(sixteen_to, 33);
}

proof fn sixteen_to_grows(a: nat, b: nat)
    requires
        a <= b,
    ensures
        1 <= sixteen_to(a) <= sixteen_to(b),
    decreases b,
{
    if a < b {
        sixteen_to_grows(a, (b - 1) as nat);
    } else if a > 0 {
        sixteen_to_grows((a - 1) as nat, (a - 1) as nat);
    }
}

impl CameraInstanceId {
    /// What an instance id is: nonzero.
    pub open spec fn well_formed(self) -> bool {
        self.value != 0
    }

    /// The instance id that a text writes, if it does.
    pub open spec fn parsed(text: Seq<char>) -> Result<CameraInstanceId, ContractError> {
        if text.len() == 32 && number(text, 16) is Some && number(text, 16)->0 != 0 {
            Ok(CameraInstanceId { value: number(text, 16)->0 as u128 })
        } else {
            Err(ContractError::InvalidInstanceId)
        }
    }

    /// Reads an instance id of 32 hexadecimal digits.
    pub fn new(text: &str) -> (r: Result<Self, ContractError>)
        ensures
            r == CameraInstanceId::parsed(text@),
            r is Ok ==> r->Ok_0.well_formed(),
    {
        let digits: Vec<char> = chars_of(text);
        if digits.len() != 32 {
            return Err(ContractError::InvalidInstanceId);
        }
        let mut value: u128 = 0;
        let mut i: usize = 0;
        assert(digits@.take(0) =~= Seq::<char>::empty());
        while i < 32
            invariant
                i <= 32,
                digits@.len() == 32,
                digits@ == text@,
                number(digits@.take(i as int), 16) == Some(value as int),
                value < sixteen_to(i as nat),
            decreases 32 - i,
        {
            let ghost taken = digits@.take(i as int + 1);
            assert(taken.drop_last() =~= digits@.take(i as int));
            proof {
                sixteen_to_bounds();
                sixteen_to_grows((i + 1) as nat, 32);
            }
            match digit_of(digits[i]) {
                Some(d) => {
                    value = value * 16 + d as u128;
                },
                None => {
                    proof {
                        number_of_prefix(digits@, 16, i as int + 1);
                    }
                    return Err(ContractError::InvalidInstanceId);
                },
            }
            i = i + 1;
        }
        assert(digits@.take(32) =~= digits@);
        if value == 0 {
            return Err(ContractError::InvalidInstanceId);
        }
        Ok(CameraInstanceId { value })
    }

    /// The instance id of two random halves: the number that they write, high half first, or one
    /// where that is zero.
    #[must_use]
    pub fn from_random(high: u64, low: u64) -> (r: Self)
        ensures
            r.value == (if high == 0 && low == 0 {
                1int
            } else {
                high * 0x1_0000_0000_0000_0000 + low
            }),
            r.well_formed(),
    {
        let value: u128 = (high as u128) * 0x1_0000_0000_0000_0000u128 + low as u128;
        if value == 0 {
            CameraInstanceId { value: 1 }
        } else {
            CameraInstanceId { value }
        }
    }

    /// A random instance id.
    #[must_use]
    pub fn generate() -> (r: Self)
        ensures
            r.well_formed(),
    {
        let high: u64 = random_hash(&random_keys());
        let low: u64 = random_hash(&random_keys());
        CameraInstanceId::from_random(high, low)
    }

    /// The 32 lower-case hexadecimal digits of the id.
    pub fn as_str(&self) -> (r: String)
        ensures
            r@ == hex_digits(self.value as nat, 32),
    {
        let mut s: String = String::new();
        push_hex(&mut s, self.value, 32);
        assert(s@ =~= hex_digits(self.value as nat, 32));
        s
    }
}

/// Trusted: `RandomState::new` makes a hasher's state with random keys. Nothing is claimed of the
/// keys.
#[verifier::external_body]
fn random_keys() -> (r: RandomState) {
    RandomState::new()
}

/// Trusted: `BuildHasher::hash_one` hashes one value under random keys. Nothing is claimed of the
/// hash.
#[verifier::external_body]
fn random_hash(keys: &RandomState) -> (r: u64) {
    keys.hash_one(0u64)
}

/// The lower-case digits of a number write that number.
proof fn hex_digits_write_the_number(n: nat, width: nat)
    requires
        n < sixteen_to(width),
    ensures
        hex_digits(n, width).len() == width,
        number(hex_digits(n, width), 16) == Some(n as int),
    decreases width,
{
    if width > 0 {
        hex_digits_write_the_number(n / 16, (width - 1) as nat);
        let shorter = hex_digits(n / 16, (width - 1) as nat);
        assert(hex_digits(n, width).drop_last() =~= shorter);
    }
}

/// Writing an instance id and reading it back gives the same id.
pub proof fn instance_id_text_round_trip(id: CameraInstanceId)
    requires
        id.well_formed(),
    ensures
        CameraInstanceId::parsed(hex_digits(id.value as nat, 32)) == Ok::<
            CameraInstanceId,
            ContractError,
        >(id),
{
    sixteen_to_bounds();
    hex_digits_write_the_number(id.value as nat, 32);
}

/// Lifecycle generation of one camera instance: positive, and one more after each change.
#[derive(Clone, Copy, Debug, PartialEq, Eq, Structural)]
pub struct CameraGeneration {
    pub value: u64,
}

impl CameraGeneration {
    /// The generation that an instance starts with.
    #[must_use]
    pub fn initial() -> (r: Self)
        ensures
            r == (CameraGeneration { value: 1 }),
    {
        CameraGeneration { value: 1 }
    }

    /// What a generation is: positive.
    pub open spec fn well_formed(self) -> bool {
        self.value > 0
    }

    pub fn new(value: u64) -> (r: Result<Self, ContractError>)
        ensures
            r == (if value > 0 {
                Ok(CameraGeneration { value })
            } else {
                Err(ContractError::InvalidGeneration)
            }),
    {
        if value == 0 {
            Err(ContractError::InvalidGeneration)
        } else {
            Ok(CameraGeneration { value })
        }
    }

    #[must_use]
    pub fn get(&self) -> (r: u64)
        ensures
            r == self.value,
    {
        self.value
    }

    /// The generation after this one.
    pub fn next(&self) -> (r: Result<Self, ContractError>)
        ensures
            r == (if self.value < u64::MAX {
                Ok(CameraGeneration { value: (self.value + 1) as u64 })
            } else {
                Err(ContractError::GenerationExhausted)
            }),
    {
        if self.value == u64::MAX {
            Err(ContractError::GenerationExhausted)
        } else {
            Ok(CameraGeneration { value: self.value + 1 })
        }
    }
}

/// How a camera is reached.
#[derive(Clone, Copy, Debug, PartialEq, Eq, Structural)]
pub enum BackendKind {
    UvcV4l2,
}

/// How well a camera can be told from another of its model.
#[derive(Clone, Copy, Debug, PartialEq, Eq, Structural)]
pub enum IdentityStrength {
    /// Only its place in the topology tells it apart.
    Ambiguous,
    /// It has a serial number.
    Serial,
}

/// Where a camera is attached, and its serial number where it has one.
#[derive(Clone, Debug, PartialEq, Eq)]
pub struct PhysicalCameraId {
    pub topology_path: String,
    pub serial: Option<String>,
}

/// The text of an optional string.
pub open spec fn optional_text(text: Option<String>) -> Option<Seq<char>> {
    match text {
        Some(s) => Some(s@),
        None => None,
    }
}

impl PhysicalCameraId {
    pub fn new(topology_path: &str, serial: Option<String>) -> (r: Result<Self, ContractError>)
        ensures
            match r {
                Ok(id) => topology_path@.len() > 0 && id.topology_path@ == topology_path@
                    && id.serial == serial,
                Err(error) => topology_path@.len() == 0 && error
                    == ContractError::EmptyTopologyPath,
            },
    {
        let path: String = topology_path.to_owned();
        if chars_of(topology_path).len() == 0 {
            return Err(ContractError::EmptyTopologyPath);
        }
        Ok(PhysicalCameraId { topology_path: path, serial })
    }

    #[must_use]
    pub fn topology_path(&self) -> (r: &str)
        ensures
            r@ == self.topology_path@,
    {
        self.topology_path.as_str()
    }

    /// A copy of the id.
    pub fn copy(&self) -> (r: Self)
        ensures
            r.topology_path@ == self.topology_path@,
            optional_text(r.serial) == optional_text(self.serial),
    {
        PhysicalCameraId {
            topology_path: self.topology_path.clone(),
            serial: match &self.serial {
                Some(serial) => Some(serial.clone()),
                None => None,
            },
        }
    }
}

/// What a camera offers: its streams, and the features and formats that its backend reports, each
/// under the backend's own name for it.
#[derive(Clone, Debug, PartialEq, Eq)]
pub struct CameraCapabilities {
    pub roles: Vec<StreamRole>,
    pub features: Vec<String>,
    pub formats: Vec<String>,
}

impl CameraCapabilities {
    /// Whether two cameras offer the same, in the same order.
    pub open spec fn offers_as(self, other: CameraCapabilities) -> bool {
        &&& self.roles@ == other.roles@
        &&& texts(self.features@) == texts(other.features@)
        &&& texts(self.formats@) == texts(other.formats@)
    }

    pub fn new(roles: Vec<StreamRole>, features: Vec<String>, formats: Vec<String>) -> (r: Result<
        Self,
        ContractError,
    >)
        ensures
            r == (if roles@.len() > 0 {
                Ok(CameraCapabilities { roles, features, formats })
            } else {
                Err(ContractError::NoStreamRole)
            }),
    {
        if roles.len() == 0 {
            return Err(ContractError::NoStreamRole);
        }
        Ok(CameraCapabilities { roles, features, formats })
    }

    /// A copy of the capabilities.
    pub fn copy(&self) -> (r: Self)
        ensures
            r.offers_as(*self),
    {
        let mut roles: Vec<StreamRole> = Vec::new();
        let mut i: usize = 0;
        while i < self.roles.len()
            invariant
                i <= self.roles@.len(),
                roles@ == self.roles@.take(i as int),
            decreases self.roles@.len() - i,
        {
            roles.push(self.roles[i]);
            i = i + 1;
            assert(roles@ =~= self.roles@.take(i as int));
        }
        assert(roles@ =~= self.roles@);
        CameraCapabilities {
            roles,
            features: copy_texts(&self.features),
            formats: copy_texts(&self.formats),
        }
    }

    /// Whether two cameras offer the same, in the same order.
    #[must_use]
    pub fn same_as(&self, other: &CameraCapabilities) -> (r: bool)
        ensures
            r == self.offers_as(*other),
    {
        if self.roles.len() != other.roles.len() {
            return false;
        }
        let mut i: usize = 0;
        while i < self.roles.len()
            invariant
                i <= self.roles@.len(),
                self.roles@.len() == other.roles@.len(),
                forall|k: int| 0 <= k < i ==> self.roles@[k] == other.roles@[k],
            decreases self.roles@.len() - i,
        {
            if self.roles[i] != other.roles[i] {
                return false;
            }
            i = i + 1;
        }
        assert(self.roles@ =~= other.roles@);
        same_texts(&self.features, &other.features) && same_texts(&self.formats, &other.formats)
    }
}

/// When a frame was captured: nanoseconds of one monotonic clock.
#[derive(Clone, Copy, Debug, PartialEq, Eq, Structural)]
pub struct CaptureWindow {
    pub start: u64,
    pub end: u64,
}

impl CaptureWindow {
    /// Whether `other` lies in this window.
    pub open spec fn covers(self, other: CaptureWindow) -> bool {
        self.start <= other.start && other.end <= self.end
    }

    /// The window of a single instant.
    #[must_use]
    pub fn at(instant: u64) -> (r: Self)
        ensures
            r == (CaptureWindow { start: instant, end: instant }),
    {
        CaptureWindow { start: instant, end: instant }
    }

    /// The smallest window that covers both.
    pub open spec fn spec_union(self, other: CaptureWindow) -> CaptureWindow {
        CaptureWindow {
            start: if self.start <= other.start {
                self.start
            } else {
                other.start
            },
            end: if self.end >= other.end {
                self.end
            } else {
                other.end
            },
        }
    }

    /// The smallest window that covers both.
    #[must_use]
    pub fn union(self, other: CaptureWindow) -> (r: Self)
        ensures
            r == self.spec_union(other),
    {
        CaptureWindow {
            start: if self.start <= other.start {
                self.start
            } else {
                other.start
            },
            end: if self.end >= other.end {
                self.end
            } else {
                other.end
            },
        }
    }
}

// ---------------------------------------------------------------------------------------------
// Laws
// ---------------------------------------------------------------------------------------------

/// A text is an instance id exactly where it is thirty-two hexadecimal digits, of either case, and
/// one of them is not zero in the number that they write.
pub proof fn an_instance_id_is_thirty_two_digits(text: Seq<char>)
    ensures
        CameraInstanceId::parsed(text) is Ok <==> text.len() == 32 && number(text, 16) is Some
            && number(text, 16) != Some(0int),
        CameraInstanceId::parsed(text) is Err ==> CameraInstanceId::parsed(text)->Err_0
            == ContractError::InvalidInstanceId,
{
}

/// The union of two windows covers both, does not depend on their order, and is covered by every
/// window that covers both.
pub proof fn a_union_is_the_smallest_cover(a: CaptureWindow, b: CaptureWindow, c: CaptureWindow)
    ensures
        a.spec_union(b).start <= a.start && a.end <= a.spec_union(b).end,
        a.spec_union(b).start <= b.start && b.end <= a.spec_union(b).end,
        a.spec_union(b) == b.spec_union(a),
        c.start <= a.start && a.end <= c.end && c.start <= b.start && b.end <= c.end ==> c.start
            <= a.spec_union(b).start && a.spec_union(b).end <= c.end,
        a.covers(b) <==> a.start <= b.start && b.end <= a.end,
        a.spec_union(a) == a,
{
}

} // verus!
