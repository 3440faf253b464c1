//! Machine identity and machine information.

use vstd::prelude::*;
use crate::error::{GhrError, GhrResult};

verus! {

/// An opaque identifier of a machine.
pub type Hash = Vec<u8>;

/// A unique identifier for each computer.
#[derive(Clone, Debug, PartialEq)]
pub enum MachineIdentifier {
    /// Derived deterministically from the machine's hardware.
    True(Hash),
    /// Randomly generated.
    Random(Hash),
}

// ----- the outside hashing, address and randomness -----

/// The B64 salt string that the password-hash crate makes of salt bytes;
/// `None` where it refuses them.
pub uninterp spec fn b64_salt(bytes: Seq<u8>) -> Option<Seq<char>>;

/// The outcome of default Argon2 hashing of a password with a B64 salt:
/// `None` where it fails, else the hash output if the hash has one.
pub uninterp spec fn argon2_default(password: Seq<u8>, salt: Seq<char>) -> Option<Option<Seq<u8>>>;

/// Relies on `password_hash::SaltString::encode_b64`: encodes salt bytes
/// as B64; the result depends on the bytes alone.
#[verifier::external_body]
fn encode_salt(bytes: &Vec<u8>) -> (r: Result<String, String>)
    ensures
        match r {
            Ok(s) => b64_salt(bytes@) == Some(s@),
            Err(_) => b64_salt(bytes@) is None,
        },
{
    argon2::password_hash::SaltString::encode_b64(bytes.as_slice())
        .map(|s| s.as_str().to_string())
        .map_err(|e| e.to_string())
}

/// Relies on `argon2::Argon2::hash_password` with the default parameters,
/// after `password_hash::Salt::from_b64`: the hash depends on the password
/// and salt alone.
#[verifier::external_body]
fn hash_password(password: &Vec<u8>, salt: &str) -> (r: Result<Option<Vec<u8>>, String>)
    ensures
        match r {
            Ok(Some(h)) => argon2_default(password@, salt@) == Some(Some(h@)),
            Ok(None) => argon2_default(password@, salt@) == Some(None::<Seq<u8>>),
            Err(_) => argon2_default(password@, salt@) is None,
        },
{
    match argon2::password_hash::Salt::from_b64(salt) {
        Ok(s) => match argon2::PasswordHasher::hash_password(&argon2::Argon2::default(), password, s) {
            Ok(h) => Ok(h.hash.map(|o| o.as_bytes().to_vec())),
            Err(e) => Err(e.to_string()),
        },
        Err(e) => Err(e.to_string()),
    }
}

/// Relies on `mac_address::get_mac_address`: the first non-loopback MAC
/// address of the machine, as its six bytes, if there is one.
#[verifier::external_body]
fn read_mac_address() -> (r: Option<Vec<u8>>)
    ensures
        r is Some ==> r->0@.len() == 6,
{
    mac_address::get_mac_address().ok().flatten().map(|a| a.bytes().to_vec())
}

/// Relies on `rand::thread_rng` sampled through `rand::distributions::Standard`:
/// `n` random bytes.
#[verifier::external_body]
fn random_bytes(n: usize) -> (r: Vec<u8>)
    ensures
        r@.len() == n,
{
    rand::Rng::sample_iter(rand::thread_rng(), rand::distributions::Standard).take(n).collect()
}

// ----- salt -----

/// The embedded salt bytes used when no machine source gives any.
pub open spec fn static_salt() -> Seq<u8> {
    seq![0x6bu8, 0xf1u8, 0xadu8, 0x5fu8, 0x2du8, 0x80u8, 0x8du8, 0x6bu8, 0xb8u8, 0x93u8, 0xa9u8, 0xa3u8, 0x62u8, 0x1eu8, 0x67u8, 0x1au8]
}

fn static_salt_exec() -> (r: Vec<u8>)
    ensures
        r@ == static_salt(),
{
    let r: Vec<u8> = vec![0x6b, 0xf1, 0xad, 0x5f, 0x2d, 0x80, 0x8d, 0x6b, 0xb8, 0x93, 0xa9, 0xa3, 0x62, 0x1e, 0x67, 0x1a];
    assert(r@ =~= static_salt());
    r
}

/// The concatenation of byte sequences.
pub open spec fn flatten(s: Seq<Seq<u8>>) -> Seq<u8>
    decreases s.len(),
{
    if s.len() == 0 {
        seq![]
    } else {
        flatten(s.drop_last()) + s.last()
    }
}

/// The salt that sources give: the sources, then as many embedded bytes as
/// the number of sources falls short of 16, concatenated and cut to 64
/// bytes.
pub open spec fn salt_of(sources: Seq<Seq<u8>>) -> Seq<u8> {
    let fill = if sources.len() < 16 { 16 - sources.len() } else { 0 };
    let all = flatten(sources) + static_salt().subrange(0, fill as int);
    if all.len() <= 64 {
        all
    } else {
        all.subrange(0, 64)
    }
}

/// Builds a salt from machine sources, filling up from the embedded bytes
/// and keeping at most 64 bytes.
pub fn salt_from_sources(sources: &Vec<Vec<u8>>) -> (r: Vec<u8>)
    ensures
        r@ == salt_of(sources@.map_values(|v: Vec<u8>| v@)),
{
    let ghost sv = sources@.map_values(|v: Vec<u8>| v@);
    let mut all: Vec<u8> = Vec::new();
    let mut i: usize = 0;
    while i < sources.len()
        invariant
            i <= sources@.len(),
            sv == sources@.map_values(|v: Vec<u8>| v@),
            all@ == flatten(sv.subrange(0, i as int)),
        decreases sources@.len() - i,
    {
        assert(sv.subrange(0, i + 1).drop_last() =~= sv.subrange(0, i as int));
        let mut j: usize = 0;
        let ghost before = all@;
        while j < sources[i].len()
            invariant
                i < sources@.len(),
                j <= sources@[i as int]@.len(),
                all@ == before + sources@[i as int]@.subrange(0, j as int),
            decreases sources@[i as int]@.len() - j,
        {
            all.push(sources[i][j]);
            j += 1;
            assert(all@ =~= before + sources@[i as int]@.subrange(0, j as int));
        }
        assert(sources@[i as int]@.subrange(0, j as int) =~= sources@[i as int]@);
        i += 1;
    }
    assert(sv.subrange(0, sources@.len() as int) =~= sv);
    let fill: usize = if sources.len() < 16 {
        16 - sources.len()
    } else {
        0
    };
    let stat = static_salt_exec();
    let mut k: usize = 0;
    let ghost before = all@;
    while k < fill
        invariant
            fill <= 16,
            stat@ == static_salt(),
            k <= fill,
            all@ == before + static_salt().subrange(0, k as int),
        decreases fill - k,
    {
        all.push(stat[k]);
        k += 1;
        assert(all@ =~= before + static_salt().subrange(0, k as int));
    }
    if all.len() > 64 {
        all.truncate(64);
    }
    assert(all@ =~= salt_of(sv));
    all
}

/// The salt this machine's sources give; no machine source is read yet, so
/// it is the embedded bytes.
pub fn system_sources() -> (r: Vec<u8>)
    ensures
        r@ == static_salt(),
{
    let none: Vec<Vec<u8>> = Vec::new();
    let r = salt_from_sources(&none);
    assert(none@.map_values(|v: Vec<u8>| v@) =~= Seq::<Seq<u8>>::empty());
    assert(flatten(Seq::<Seq<u8>>::empty()) + static_salt().subrange(0, 16) =~= static_salt());
    r
}

// ----- identity -----

/// The identifying hash of a machine with MAC address bytes `mac`: the
/// default Argon2 hash of the address with the machine's salt, where both
/// steps succeed.
pub open spec fn true_hash_of(mac: Seq<u8>) -> Option<Seq<u8>> {
    match b64_salt(static_salt()) {
        None => None,
        Some(salt) => match argon2_default(mac, salt) {
            Some(Some(h)) => Some(h),
            _ => None,
        },
    }
}

/// What deriving a true identity from `mac` may give: without an address
/// `NoMacAddresses`; else the address's hash where it can be made, and a
/// salt or hash failure where it cannot.
pub open spec fn identity_outcome(mac: Option<Seq<u8>>, r: GhrResult<Hash>) -> bool {
    match mac {
        None => r is Err && r->Err_0 is NoMacAddresses,
        Some(m) => match true_hash_of(m) {
            Some(h) => r is Ok && r->Ok_0@ == h,
            None => r is Err && (r->Err_0 is SaltFailed || r->Err_0 is HashFailed),
        },
    }
}

/// Turns the outcome of hashing into the identifier bytes: a hashing
/// error, or a hash without output, is `HashFailed`.
pub fn hash_result(h: Result<Option<Vec<u8>>, String>) -> (r: GhrResult<Hash>)
    ensures
        match h {
            Ok(Some(b)) => r is Ok && r->Ok_0@ == b@,
            _ => r is Err && r->Err_0 is HashFailed,
        },
{
    match h {
        Ok(Some(b)) => Ok(b),
        Ok(None) => Err(GhrError::HashFailed(String::from_str("no hash output"))),
        Err(e) => Err(GhrError::HashFailed(e)),
    }
}

/// Derives the machine's true identifier from its MAC address bytes: the
/// address is the password, the machine's salt the salt.
pub fn make_hash(mac: Option<Vec<u8>>) -> (r: GhrResult<Hash>)
    ensures
        identity_outcome(opt_bytes(mac), r),
{
    let mac = match mac {
        Some(m) => m,
        None => return Err(GhrError::NoMacAddresses),
    };
    let salt = match encode_salt(&system_sources()) {
        Ok(s) => s,
        Err(e) => return Err(GhrError::SaltFailed(e)),
    };
    hash_result(hash_password(&mac, salt.as_str()))
}

/// The bytes of an optional byte vector.
pub open spec fn opt_bytes(o: Option<Vec<u8>>) -> Option<Seq<u8>> {
    match o {
        Some(v) => Some(v@),
        None => None,
    }
}

/// Derivation is deterministic: for one MAC address, any two outcomes
/// agree on success and, where they succeed, on every byte of the hash.
pub proof fn lemma_true_identity_deterministic(mac: Option<Seq<u8>>, r1: GhrResult<Hash>, r2: GhrResult<Hash>)
    requires
        identity_outcome(mac, r1),
        identity_outcome(mac, r2),
    ensures
        (r1 is Ok) == (r2 is Ok),
        r1 is Ok ==> r1->Ok_0@ == r2->Ok_0@,
{
}

impl MachineIdentifier {
    /// Computes a true identifier for this machine from its MAC address.
    pub fn new_true() -> (r: GhrResult<MachineIdentifier>)
        ensures
            r is Ok ==> exists|m: Seq<u8>| m.len() == 6 && (#[trigger] true_hash_of(m)) is Some && r->Ok_0 == MachineIdentifier::True(r->Ok_0->True_0) && r->Ok_0->True_0@ == true_hash_of(m)->0,
            r is Err ==> (r->Err_0 is NoMacAddresses || r->Err_0 is SaltFailed || r->Err_0 is HashFailed),
    {
        let mac = read_mac_address();
        let ghost m = opt_bytes(mac);
        match make_hash(mac) {
            Ok(h) => {
                assert(true_hash_of(m->0) is Some);
                Ok(MachineIdentifier::True(h))
            },
            Err(e) => Err(e),
        }
    }

    /// Creates a random identifier of 30 bytes.
    pub fn new_random() -> (r: MachineIdentifier)
        ensures
            r is Random && r->Random_0@.len() == 30,
    {
        MachineIdentifier::Random(random_bytes(30))
    }
}

// ----- machine information -----

/// A calendar date.
#[derive(Clone, Copy, Debug, PartialEq, Eq, Structural)]
pub struct BiosDate {
    pub year: i32,
    /// 1 to 12.
    pub month: u32,
    /// 1 to 31.
    pub day: u32,
}

/// The (year, month, day) that the date library reads from `s` in format
/// `fmt`.
pub uninterp spec fn parsed_date(s: Seq<char>, fmt: Seq<char>) -> Option<(i32, u32, u32)>;

/// Relies on `chrono::NaiveDate::parse_from_str`: reads a valid calendar
/// date from `s` in format `fmt`; the result depends on the two alone.
#[verifier::external_body]
fn parse_date(s: &str, fmt: &str) -> (r: Option<(i32, u32, u32)>)
    ensures
        r == parsed_date(s@, fmt@),
        r matches Some((y, m, d)) ==> 1 <= m <= 12 && 1 <= d <= 31,
{
    chrono::NaiveDate::parse_from_str(s, fmt).ok().map(
        |d| (chrono::Datelike::year(&d), chrono::Datelike::month(&d), chrono::Datelike::day(&d)),
    )
}

/// The characters `%m/%d/%Y`.
pub open spec fn bios_date_format() -> Seq<char> {
    seq!['%', 'm', '/', '%', 'd', '/', '%', 'Y']
}

/// Reads a firmware date written month/day/year.
pub fn bios_date(s: &str) -> (r: Option<BiosDate>)
    ensures
        match parsed_date(s@, bios_date_format()) {
            Some((y, m, d)) => r == Some(BiosDate { year: y, month: m, day: d }),
            None => r is None,
        },
{
    let fmt = String::from_str("%m/%d/%Y");
    proof {
        reveal_strlit("%m/%d/%Y");
    }
    assert(fmt@ =~= bios_date_format());
    match parse_date(s, fmt.as_str()) {
        Some((y, m, d)) => Some(BiosDate { year: y, month: m, day: d }),
        None => None,
    }
}

/// Information about the chassis.
#[derive(Clone, Debug, PartialEq)]
pub struct ChassisInfo {
    /// The kind of chassis, such as "Desktop".
    pub kind: Option<String>,
    /// The chassis maker.
    pub vendor: Option<String>,
    pub version: Option<String>,
}

/// Information about the system firmware.
#[derive(Clone, Debug, PartialEq)]
pub struct BiosInfo {
    pub vendor: Option<String>,
    pub version: Option<String>,
    /// The date the firmware was built.
    pub date: Option<BiosDate>,
}

/// Information about the machine: maker, model, firmware, chassis, and
/// its identifier.
#[derive(Clone, Debug, PartialEq)]
pub struct MachineInfo {
    pub vendor: Option<String>,
    pub model: Option<String>,
    pub bios: BiosInfo,
    pub chassis: ChassisInfo,
    pub hash: MachineIdentifier,
}

/// The machine's firmware-table readings, already trimmed.
pub struct DmiReadings {
    pub sys_vendor: Option<String>,
    pub product_name: Option<String>,
    pub chassis_type: Option<String>,
    pub chassis_vendor: Option<String>,
    pub chassis_version: Option<String>,
    pub bios_vendor: Option<String>,
    pub bios_version: Option<String>,
    pub bios_date: Option<String>,
}

impl MachineInfo {
    /// Assembles machine information from firmware-table readings and an
    /// identifier. The firmware date is read month/day/year.
    pub fn new(machine_id: MachineIdentifier, dmi: DmiReadings) -> (r: MachineInfo)
        ensures
            r.vendor == dmi.sys_vendor,
            r.model == dmi.product_name,
            r.chassis == (ChassisInfo { kind: dmi.chassis_type, vendor: dmi.chassis_vendor, version: dmi.chassis_version }),
            r.bios.vendor == dmi.bios_vendor,
            r.bios.version == dmi.bios_version,
            r.bios.date == match dmi.bios_date {
                Some(d) => match parsed_date(d@, bios_date_format()) {
                    Some((y, m, dd)) => Some(BiosDate { year: y, month: m, day: dd }),
                    None => None,
                },
                None => None,
            },
            r.hash == machine_id,
    {
        let date = match &dmi.bios_date {
            Some(d) => bios_date(d.as_str()),
            None => None,
        };
        MachineInfo {
            vendor: dmi.sys_vendor,
            model: dmi.product_name,
            bios: BiosInfo { vendor: dmi.bios_vendor, version: dmi.bios_version, date },
            chassis: ChassisInfo {
                kind: dmi.chassis_type,
                vendor: dmi.chassis_vendor,
                version: dmi.chassis_version,
            },
            hash: machine_id,
        }
    }
}

} // verus!
