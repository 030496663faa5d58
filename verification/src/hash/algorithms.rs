//! Hash algorithms, hardware-aware hashing strategies, incremental hashing
//! and batch hashing.
use vstd::prelude::*;
use crate::error::{Error, Result};
use crate::hash::{calculate_hash_with_algorithm, hash_text_of};
use crate::hash::digest::{
    Sha256State, Sha384State, Sha512State, hex_encode, sha256_fed, sha256_finalize, sha256_new,
    sha256_update, sha384_fed, sha384_finalize, sha384_new, sha384_update, sha512_fed,
    sha512_finalize, sha512_new, sha512_update,
};
use crate::text::{
    all_hex, all_hex_digits, ascii_lowercase, byte_len, lowercase, str_eq, to_lowercase, utf8_len,
};

verus! {

/// Supported cryptographic hash algorithms.
#[derive(Debug, Clone, Copy, PartialEq, Eq, Structural)]
pub enum HashAlgorithm {
    /// SHA-256 (256-bit/32-byte output)
    Sha256,
    /// SHA-384 (384-bit/48-byte output), the default
    Sha384,
    /// SHA-512 (512-bit/64-byte output)
    Sha512,
}

/// The lowercase name of an algorithm.
pub open spec fn algorithm_name(a: HashAlgorithm) -> Seq<char> {
    match a {
        HashAlgorithm::Sha256 => "sha256"@,
        HashAlgorithm::Sha384 => "sha384"@,
        HashAlgorithm::Sha512 => "sha512"@,
    }
}

/// The number of bytes of an algorithm's digest.
pub open spec fn digest_len(a: HashAlgorithm) -> nat {
    match a {
        HashAlgorithm::Sha256 => 32,
        HashAlgorithm::Sha384 => 48,
        HashAlgorithm::Sha512 => 64,
    }
}

/// The number of hexadecimal characters of an algorithm's digest.
pub open spec fn hex_len(a: HashAlgorithm) -> nat {
    2 * digest_len(a)
}

/// The algorithm that a lowercased name stands for.
pub open spec fn algorithm_named(lower: Seq<char>) -> Option<HashAlgorithm> {
    if lower == "sha256"@ || lower == "sha-256"@ {
        Some(HashAlgorithm::Sha256)
    } else if lower == "sha384"@ || lower == "sha-384"@ {
        Some(HashAlgorithm::Sha384)
    } else if lower == "sha512"@ || lower == "sha-512"@ {
        Some(HashAlgorithm::Sha512)
    } else {
        None
    }
}

/// The algorithm that an already lowercased name stands for: `sha256` or
/// `sha-256`, and so on.
pub fn algorithm_from_lowercase(lower: &str) -> (r: Option<HashAlgorithm>)
    ensures
        r == algorithm_named(lower@),
{
    if str_eq(lower, "sha256") || str_eq(lower, "sha-256") {
        Some(HashAlgorithm::Sha256)
    } else if str_eq(lower, "sha384") || str_eq(lower, "sha-384") {
        Some(HashAlgorithm::Sha384)
    } else if str_eq(lower, "sha512") || str_eq(lower, "sha-512") {
        Some(HashAlgorithm::Sha512)
    } else {
        None
    }
}

/// The message for a name that stands for no algorithm.
pub open spec fn unknown_algorithm_message(name: Seq<char>) -> Seq<char> {
    "Unknown hash algorithm: "@ + name + ". Supported: sha256, sha384, sha512"@
}

impl HashAlgorithm {
    /// The lowercase name: `sha256`, `sha384` or `sha512`.
    pub fn as_str(&self) -> (r: &'static str)
        ensures
            r@ == algorithm_name(*self),
    {
        match self {
            HashAlgorithm::Sha256 => "sha256",
            HashAlgorithm::Sha384 => "sha384",
            HashAlgorithm::Sha512 => "sha512",
        }
    }

    /// The digest size in bytes.
    pub fn output_size(&self) -> (r: usize)
        ensures
            r == digest_len(*self),
    {
        match self {
            HashAlgorithm::Sha256 => 32,
            HashAlgorithm::Sha384 => 48,
            HashAlgorithm::Sha512 => 64,
        }
    }

    /// The length of the digest as hexadecimal text.
    pub fn hex_length(&self) -> (r: usize)
        ensures
            r == hex_len(*self),
    {
        self.output_size() * 2
    }

    /// Whether `hash` has this algorithm's hexadecimal length and consists of
    /// hexadecimal digits only.
    pub fn validate_hash(&self, hash: &str) -> (r: bool)
        ensures
            r == (utf8_len(hash@) == hex_len(*self) && all_hex_digits(hash@)),
    {
        byte_len(hash) == self.hex_length() && all_hex(hash)
    }

    /// Parses an algorithm name, ignoring case: `sha256`/`sha-256`,
    /// `sha384`/`sha-384` or `sha512`/`sha-512`.
    pub fn from_name(s: &str) -> (r: Result<HashAlgorithm>)
        ensures
            algorithm_named(lowercase(s@)) matches Some(a) ==> r == Ok::<HashAlgorithm, Error>(a),
            algorithm_named(lowercase(s@)) is None ==> (r matches Err(Error::InvalidFormat(m))
                && m@ == unknown_algorithm_message(s@)),
    {
        let lower = to_lowercase(s);
        match algorithm_from_lowercase(lower.as_str()) {
            Some(a) => Ok(a),
            None => {
                let mut m = String::from_str("Unknown hash algorithm: ");
                m.append(s);
                m.append(". Supported: sha256, sha384, sha512");
                Err(Error::InvalidFormat(m))
            },
        }
    }
}

/// An algorithm's name parses back to it: `from_name(a.as_str())` is
/// `Ok(a)`, and so is the name in capitals.
pub proof fn algorithm_name_roundtrip(a: HashAlgorithm)
    ensures
        algorithm_named(lowercase(algorithm_name(a))) == Some(a),
{
    reveal_strlit("sha256");
    reveal_strlit("sha384");
    reveal_strlit("sha512");
    reveal_strlit("sha-256");
    reveal_strlit("sha-384");
    reveal_strlit("sha-512");
    let n = algorithm_name(a);
    assert(vstd::utf8::is_ascii_chars(n));
    assert(ascii_lowercase(n) =~= n);
    assert("sha384"@[4] != "sha256"@[4]);
    assert("sha512"@[4] != "sha256"@[4]);
    assert("sha512"@[4] != "sha384"@[4]);
}

/// The names the algorithms parse from, in any letter case: `sha256` and
/// `sha-256` give SHA-256, `sha384` and `sha-384` SHA-384, `sha512` and
/// `sha-512` SHA-512 (so does `SHA-256` and the like in capitals), and
/// every other name is refused.
pub proof fn algorithm_names(s: Seq<char>)
    ensures
        lowercase(s) == "sha256"@ || lowercase(s) == "sha-256"@ ==> algorithm_named(lowercase(s))
            == Some(HashAlgorithm::Sha256),
        lowercase(s) == "sha384"@ || lowercase(s) == "sha-384"@ ==> algorithm_named(lowercase(s))
            == Some(HashAlgorithm::Sha384),
        lowercase(s) == "sha512"@ || lowercase(s) == "sha-512"@ ==> algorithm_named(lowercase(s))
            == Some(HashAlgorithm::Sha512),
        !(lowercase(s) == "sha256"@ || lowercase(s) == "sha-256"@ || lowercase(s) == "sha384"@
            || lowercase(s) == "sha-384"@ || lowercase(s) == "sha512"@ || lowercase(s)
            == "sha-512"@) ==> algorithm_named(lowercase(s)) is None,
        lowercase("SHA256"@) == "sha256"@ && lowercase("SHA-256"@) == "sha-256"@,
        lowercase("SHA384"@) == "sha384"@ && lowercase("SHA-384"@) == "sha-384"@,
        lowercase("SHA512"@) == "sha512"@ && lowercase("SHA-512"@) == "sha-512"@,
{
    assert(algorithm_named("sha256"@) == Some(HashAlgorithm::Sha256)) by {
        reveal_strlit("sha256");
        assert("sha256"@.len() == 6);
    }
    assert(algorithm_named("sha-256"@) == Some(HashAlgorithm::Sha256)) by {
        reveal_strlit("sha-256");
        assert("sha-256"@.len() == 7);
        reveal_strlit("sha256");
        assert("sha256"@.len() == 6);
    }
    assert(algorithm_named("sha384"@) == Some(HashAlgorithm::Sha384)) by {
        reveal_strlit("sha384");
        assert("sha384"@.len() == 6);
        reveal_strlit("sha256");
        assert("sha256"@.len() == 6);
        assert("sha384"@[3] != "sha256"@[3]);
        reveal_strlit("sha-256");
        assert("sha-256"@.len() == 7);
    }
    assert(algorithm_named("sha-384"@) == Some(HashAlgorithm::Sha384)) by {
        reveal_strlit("sha-384");
        assert("sha-384"@.len() == 7);
        reveal_strlit("sha256");
        assert("sha256"@.len() == 6);
        reveal_strlit("sha-256");
        assert("sha-256"@.len() == 7);
        assert("sha-384"@[4] != "sha-256"@[4]);
        reveal_strlit("sha384");
        assert("sha384"@.len() == 6);
    }
    assert(algorithm_named("sha512"@) == Some(HashAlgorithm::Sha512)) by {
        reveal_strlit("sha512");
        assert("sha512"@.len() == 6);
        reveal_strlit("sha256");
        assert("sha256"@.len() == 6);
        assert("sha512"@[3] != "sha256"@[3]);
        reveal_strlit("sha-256");
        assert("sha-256"@.len() == 7);
        reveal_strlit("sha384");
        assert("sha384"@.len() == 6);
        assert("sha512"@[3] != "sha384"@[3]);
        reveal_strlit("sha-384");
        assert("sha-384"@.len() == 7);
    }
    assert(algorithm_named("sha-512"@) == Some(HashAlgorithm::Sha512)) by {
        reveal_strlit("sha-512");
        assert("sha-512"@.len() == 7);
        reveal_strlit("sha256");
        assert("sha256"@.len() == 6);
        reveal_strlit("sha-256");
        assert("sha-256"@.len() == 7);
        assert("sha-512"@[4] != "sha-256"@[4]);
        reveal_strlit("sha384");
        assert("sha384"@.len() == 6);
        reveal_strlit("sha-384");
        assert("sha-384"@.len() == 7);
        assert("sha-512"@[4] != "sha-384"@[4]);
        reveal_strlit("sha512");
        assert("sha512"@.len() == 6);
    }
    assert(lowercase("SHA256"@) == "sha256"@) by {
        reveal_strlit("SHA256");
        reveal_strlit("sha256");
        assert(vstd::utf8::is_ascii_chars("SHA256"@));
        assert(ascii_lowercase("SHA256"@) =~= "sha256"@);
    }
    assert(lowercase("SHA-256"@) == "sha-256"@) by {
        reveal_strlit("SHA-256");
        reveal_strlit("sha-256");
        assert(vstd::utf8::is_ascii_chars("SHA-256"@));
        assert(ascii_lowercase("SHA-256"@) =~= "sha-256"@);
    }
    assert(lowercase("SHA384"@) == "sha384"@) by {
        reveal_strlit("SHA384");
        reveal_strlit("sha384");
        assert(vstd::utf8::is_ascii_chars("SHA384"@));
        assert(ascii_lowercase("SHA384"@) =~= "sha384"@);
    }
    assert(lowercase("SHA-384"@) == "sha-384"@) by {
        reveal_strlit("SHA-384");
        reveal_strlit("sha-384");
        assert(vstd::utf8::is_ascii_chars("SHA-384"@));
        assert(ascii_lowercase("SHA-384"@) =~= "sha-384"@);
    }
    assert(lowercase("SHA512"@) == "sha512"@) by {
        reveal_strlit("SHA512");
        reveal_strlit("sha512");
        assert(vstd::utf8::is_ascii_chars("SHA512"@));
        assert(ascii_lowercase("SHA512"@) =~= "sha512"@);
    }
    assert(lowercase("SHA-512"@) == "sha-512"@) by {
        reveal_strlit("SHA-512");
        reveal_strlit("sha-512");
        assert(vstd::utf8::is_ascii_chars("SHA-512"@));
        assert(ascii_lowercase("SHA-512"@) =~= "sha-512"@);
    }
}

impl Default for HashAlgorithm {
    /// SHA-384.
    fn default() -> (r: Self)
        ensures
            r == HashAlgorithm::Sha384,
    {
        HashAlgorithm::Sha384
    }
}

impl std::str::FromStr for HashAlgorithm {
    type Err = Error;

    fn from_str(s: &str) -> (r: Result<Self>)
        ensures
            algorithm_named(lowercase(s@)) matches Some(a) ==> r == Ok::<HashAlgorithm, Error>(a),
            algorithm_named(lowercase(s@)) is None ==> (r matches Err(Error::InvalidFormat(m))
                && m@ == unknown_algorithm_message(s@)),
    {
        HashAlgorithm::from_name(s)
    }
}

/// Hardware capabilities that decide the hashing strategy.
#[derive(Debug, Clone, Copy)]
pub struct HardwareCapabilities {
    /// Intel SHA-NI extensions available
    pub sha_extensions: bool,
    /// AVX-512 available (Intel Xeon optimization)
    pub avx512: bool,
    /// ARM crypto extensions (Apple Silicon/ARM64)
    pub arm_crypto: bool,
    /// Number of CPU cores
    pub cpu_cores: usize,
    /// CPU vendor/brand
    pub cpu_vendor: CpuVendor,
}

/// CPU vendors the strategies tell apart.
#[derive(Debug, Clone, Copy, PartialEq, Eq, Structural)]
pub enum CpuVendor {
    Intel,
    Amd,
    Apple,
    Other,
}

/// The processor architectures that hardware detection tells apart.
#[derive(Debug, Clone, Copy, PartialEq, Eq, Structural)]
pub enum TargetArch {
    X86_64,
    Aarch64,
    Other,
}

/// What the machine reports about its processor: the architecture the
/// program was built for, whether it runs on macOS, and the CPU features
/// found at run time (`avx`, `sha` and `avx512f` on x86-64, `aes` and
/// `sha2` on AArch64).
#[derive(Debug, Clone, Copy)]
pub struct CpuProbe {
    pub arch: TargetArch,
    pub macos: bool,
    pub avx: bool,
    pub sha: bool,
    pub avx512f: bool,
    pub aes: bool,
    pub sha2: bool,
}

/// The vendor a probe points to: Apple for AArch64 on macOS, Intel for
/// x86-64 with AVX (a heuristic), and otherwise none in particular.
pub open spec fn vendor_of(p: CpuProbe) -> CpuVendor {
    match p.arch {
        TargetArch::Aarch64 => if p.macos {
            CpuVendor::Apple
        } else {
            CpuVendor::Other
        },
        TargetArch::X86_64 => if p.avx {
            CpuVendor::Intel
        } else {
            CpuVendor::Other
        },
        TargetArch::Other => CpuVendor::Other,
    }
}

/// Whether an ARM processor has the crypto extensions: Apple Silicon always
/// has them, other processors when they report both AES and SHA-2.
pub open spec fn arm_crypto_of(p: CpuProbe) -> bool {
    p.macos || (p.aes && p.sha2)
}

/// The capabilities a probe and a core count describe.
pub open spec fn capabilities_of(p: CpuProbe, cores: usize) -> HardwareCapabilities {
    match p.arch {
        TargetArch::X86_64 => HardwareCapabilities {
            sha_extensions: p.sha,
            avx512: p.avx512f,
            arm_crypto: false,
            cpu_cores: cores,
            cpu_vendor: vendor_of(p),
        },
        TargetArch::Aarch64 => HardwareCapabilities {
            sha_extensions: false,
            avx512: false,
            arm_crypto: arm_crypto_of(p),
            cpu_cores: cores,
            cpu_vendor: vendor_of(p),
        },
        TargetArch::Other => HardwareCapabilities {
            sha_extensions: false,
            avx512: false,
            arm_crypto: false,
            cpu_cores: cores,
            cpu_vendor: CpuVendor::Other,
        },
    }
}

/// The CPU vendor a probe points to.
pub fn detect_cpu_vendor(probe: &CpuProbe) -> (r: CpuVendor)
    ensures
        r == vendor_of(*probe),
{
    match probe.arch {
        TargetArch::Aarch64 => if probe.macos {
            CpuVendor::Apple
        } else {
            CpuVendor::Other
        },
        TargetArch::X86_64 => if probe.avx {
            CpuVendor::Intel
        } else {
            CpuVendor::Other
        },
        TargetArch::Other => CpuVendor::Other,
    }
}

/// Whether an ARM processor has the crypto extensions.
pub fn detect_arm_crypto(probe: &CpuProbe) -> (r: bool)
    ensures
        r == arm_crypto_of(*probe),
{
    if probe.macos {
        return true;
    }
    probe.aes && probe.sha2
}

/// `num_cpus::get`: the number of CPUs this process may use, which depends
/// on the machine; it is at least 1.
#[verifier::external_body]
fn cpu_core_count() -> (r: usize)
    ensures
        r >= 1,
{
    num_cpus::get()
}

impl HardwareCapabilities {
    /// The capabilities of this machine, from what its processor reports and
    /// the number of CPUs available, which is at least 1.
    pub fn detect(probe: &CpuProbe) -> (r: Self)
        ensures
            r == capabilities_of(*probe, r.cpu_cores),
            r.cpu_cores >= 1,
    {
        let cpu_cores = cpu_core_count();
        let cpu_vendor = detect_cpu_vendor(probe);
        match probe.arch {
            TargetArch::X86_64 => HardwareCapabilities {
                sha_extensions: probe.sha,
                avx512: probe.avx512f,
                arm_crypto: false,
                cpu_cores,
                cpu_vendor,
            },
            TargetArch::Aarch64 => HardwareCapabilities {
                sha_extensions: false,
                avx512: false,
                arm_crypto: detect_arm_crypto(probe),
                cpu_cores,
                cpu_vendor,
            },
            TargetArch::Other => HardwareCapabilities {
                sha_extensions: false,
                avx512: false,
                arm_crypto: false,
                cpu_cores,
                cpu_vendor: CpuVendor::Other,
            },
        }
    }
}

/// The hardware capabilities of this machine: see
/// `HardwareCapabilities::detect`.
pub fn get_hardware_capabilities(probe: &CpuProbe) -> (r: HardwareCapabilities)
    ensures
        r == capabilities_of(*probe, r.cpu_cores),
        r.cpu_cores >= 1,
{
    HardwareCapabilities::detect(probe)
}

/// One mebibyte.
pub const MIB: usize = 1048576;

/// The chunk size that suits the hardware: what `optimal_chunk_size` gives.
pub open spec fn chunk_size_for(c: HardwareCapabilities) -> nat {
    let cores = c.cpu_cores;
    if c.cpu_vendor is Apple {
        if 1 <= cores <= 8 {
            (32 * MIB) as nat
        } else {
            (64 * MIB) as nat
        }
    } else if c.cpu_vendor is Intel && cores >= 16 && c.avx512 {
        (128 * MIB) as nat
    } else if 1 <= cores <= 4 {
        (16 * MIB) as nat
    } else if 5 <= cores <= 8 {
        (32 * MIB) as nat
    } else if 9 <= cores <= 16 {
        (64 * MIB) as nat
    } else {
        (128 * MIB) as nat
    }
}

impl HardwareCapabilities {
    /// The chunk size for parallel hashing on this hardware: 32 MiB on Apple
    /// machines with up to 8 cores and 64 MiB on larger ones, 128 MiB on
    /// Intel machines with AVX-512 and at least 16 cores, and otherwise 16,
    /// 32, 64 or 128 MiB as the core count passes 4, 8 and 16.
    pub fn optimal_chunk_size(&self) -> (r: usize)
        ensures
            r == chunk_size_for(*self),
    {
        match self.cpu_vendor {
            CpuVendor::Apple => {
                if 1 <= self.cpu_cores && self.cpu_cores <= 8 {
                    32 * MIB
                } else {
                    64 * MIB
                }
            },
            CpuVendor::Intel if self.cpu_cores >= 16 && self.avx512 => 128 * MIB,
            _ => {
                if 1 <= self.cpu_cores && self.cpu_cores <= 4 {
                    16 * MIB
                } else if 5 <= self.cpu_cores && self.cpu_cores <= 8 {
                    32 * MIB
                } else if 9 <= self.cpu_cores && self.cpu_cores <= 16 {
                    64 * MIB
                } else {
                    128 * MIB
                }
            },
        }
    }
}

/// How data is hashed on given hardware.
#[derive(Debug, Clone, Copy, PartialEq, Eq, Structural)]
pub enum OptimizationStrategy {
    /// Apple Silicon with ARM crypto extensions
    AppleSilicon,
    /// Intel Core processors with SHA-NI
    IntelCore,
    /// Intel Xeon with AVX-512 and SHA-NI
    IntelXeon,
    /// AMD processors
    Amd,
    /// Multi-core parallel processing
    MultiCore,
    /// Standard software implementation
    Software,
}

/// The strategy for `data_size` bytes on the given hardware.
pub open spec fn strategy_for(c: HardwareCapabilities, data_size: nat) -> OptimizationStrategy {
    if c.cpu_vendor is Apple && c.arm_crypto {
        OptimizationStrategy::AppleSilicon
    } else if c.cpu_vendor is Intel && c.avx512 && c.sha_extensions && c.cpu_cores >= 16 {
        OptimizationStrategy::IntelXeon
    } else if c.cpu_vendor is Intel && c.sha_extensions {
        OptimizationStrategy::IntelCore
    } else if c.cpu_vendor is Amd {
        OptimizationStrategy::Amd
    } else if data_size >= chunk_size_for(c) && c.cpu_cores >= 4 {
        OptimizationStrategy::MultiCore
    } else {
        OptimizationStrategy::Software
    }
}

impl OptimizationStrategy {
    /// Selects the strategy for `data_size` bytes on the given hardware.
    pub fn select(capabilities: &HardwareCapabilities, data_size: usize) -> (r: Self)
        ensures
            r == strategy_for(*capabilities, data_size as nat),
    {
        let parallel_threshold = capabilities.optimal_chunk_size();
        match capabilities.cpu_vendor {
            CpuVendor::Apple if capabilities.arm_crypto => OptimizationStrategy::AppleSilicon,
            CpuVendor::Intel if capabilities.avx512 && capabilities.sha_extensions
                && capabilities.cpu_cores >= 16 => OptimizationStrategy::IntelXeon,
            CpuVendor::Intel if capabilities.sha_extensions => OptimizationStrategy::IntelCore,
            CpuVendor::Amd => OptimizationStrategy::Amd,
            _ => {
                if data_size >= parallel_threshold && capabilities.cpu_cores >= 4 {
                    OptimizationStrategy::MultiCore
                } else {
                    OptimizationStrategy::Software
                }
            },
        }
    }
}

/// Hashes `data` by feeding it to an incremental hasher one chunk of
/// `chunk` bytes at a time; the result is the plain hash of `data`.
fn chunked_hash(data: &[u8], algorithm: HashAlgorithm, chunk: usize) -> (r: String)
    requires
        chunk > 0,
    ensures
        r@ == hash_text_of(algorithm, data@),
{
    let mut builder = HashBuilder::new(algorithm);
    let mut start: usize = 0;
    while start < data.len()
        invariant
            start <= data@.len(),
            chunk > 0,
            builder.wf(),
            builder.hash_algorithm() == algorithm,
            builder.fed() == data@.take(start as int),
        decreases data@.len() - start,
    {
        let end: usize = if data.len() - start <= chunk {
            data.len()
        } else {
            start + chunk
        };
        builder.update(&data[start..end]);
        assert(data@.take(start as int) + data@.subrange(start as int, end as int) =~= data@.take(
            end as int,
        ));
        start = end;
    }
    assert(data@.take(data@.len() as int) =~= data@);
    builder.finalize()
}

/// The Apple Silicon strategy: `sha2` uses the ARM crypto extensions itself.
fn calculate_apple_silicon_optimized(data: &[u8], algorithm: HashAlgorithm) -> (r: String)
    ensures
        r@ == hash_text_of(algorithm, data@),
{
    calculate_hash_with_algorithm(data, &algorithm)
}

/// The Intel Core strategy: `sha2` uses SHA-NI itself.
fn calculate_intel_core_optimized(data: &[u8], algorithm: HashAlgorithm) -> (r: String)
    ensures
        r@ == hash_text_of(algorithm, data@),
{
    calculate_hash_with_algorithm(data, &algorithm)
}

/// The Intel Xeon strategy: data of at least one chunk is hashed chunk by
/// chunk when there are at least 8 cores; the hash is the plain one.
fn calculate_intel_xeon_optimized(
    data: &[u8],
    algorithm: HashAlgorithm,
    capabilities: &HardwareCapabilities,
) -> (r: String)
    ensures
        r@ == hash_text_of(algorithm, data@),
{
    let chunk_size = capabilities.optimal_chunk_size();
    if data.len() >= chunk_size && capabilities.cpu_cores >= 8 {
        chunked_hash(data, algorithm, chunk_size)
    } else {
        calculate_intel_core_optimized(data, algorithm)
    }
}

/// The AMD strategy: `sha2` picks the best implementation itself.
fn calculate_amd_optimized(data: &[u8], algorithm: HashAlgorithm) -> (r: String)
    ensures
        r@ == hash_text_of(algorithm, data@),
{
    calculate_hash_with_algorithm(data, &algorithm)
}

/// The multi-core strategy: data of more than one chunk is hashed chunk by
/// chunk when there are at least 4 cores; the hash is the plain one.
fn calculate_multicore_parallel(
    data: &[u8],
    algorithm: HashAlgorithm,
    capabilities: &HardwareCapabilities,
) -> (r: String)
    ensures
        r@ == hash_text_of(algorithm, data@),
{
    let chunk_size = capabilities.optimal_chunk_size();
    if data.len() <= chunk_size || capabilities.cpu_cores < 4 {
        return calculate_hash_with_algorithm(data, &algorithm);
    }
    chunked_hash(data, algorithm, chunk_size)
}

/// Calculates a hash with the strategy that suits the given hardware; every
/// strategy gives the same hash as `calculate_hash_with_algorithm`.
pub fn calculate_hash_optimized(
    data: &[u8],
    algorithm: HashAlgorithm,
    capabilities: &HardwareCapabilities,
) -> (r: String)
    ensures
        r@ == hash_text_of(algorithm, data@),
{
    let strategy = OptimizationStrategy::select(capabilities, data.len());
    match strategy {
        OptimizationStrategy::AppleSilicon => calculate_apple_silicon_optimized(data, algorithm),
        OptimizationStrategy::IntelCore => calculate_intel_core_optimized(data, algorithm),
        OptimizationStrategy::IntelXeon => calculate_intel_xeon_optimized(
            data,
            algorithm,
            capabilities,
        ),
        OptimizationStrategy::Amd => calculate_amd_optimized(data, algorithm),
        OptimizationStrategy::MultiCore => calculate_multicore_parallel(
            data,
            algorithm,
            capabilities,
        ),
        OptimizationStrategy::Software => calculate_hash_with_algorithm(data, &algorithm),
    }
}

/// The running state of an incremental hash, one per algorithm.
enum HashBuilderInner {
    Sha256(Sha256State),
    Sha384(Sha384State),
    Sha512(Sha512State),
}

/// Everything a running state has been fed.
spec fn inner_fed(h: HashBuilderInner) -> Seq<u8> {
    match h {
        HashBuilderInner::Sha256(h) => sha256_fed(h),
        HashBuilderInner::Sha384(h) => sha384_fed(h),
        HashBuilderInner::Sha512(h) => sha512_fed(h),
    }
}

/// Whether two running states belong to the same algorithm.
spec fn same_kind(a: HashBuilderInner, b: HashBuilderInner) -> bool {
    (a is Sha256 && b is Sha256) || (a is Sha384 && b is Sha384) || (a is Sha512 && b is Sha512)
}

/// Feeds `data` to a running state.
fn update_inner(h: &mut HashBuilderInner, data: &[u8])
    ensures
        same_kind(*old(h), *final(h)),
        inner_fed(*final(h)) == inner_fed(*old(h)) + data@,
{
    match h {
        HashBuilderInner::Sha256(h) => sha256_update(h, data),
        HashBuilderInner::Sha384(h) => sha384_update(h, data),
        HashBuilderInner::Sha512(h) => sha512_update(h, data),
    }
}

/// Builder for incremental hashing: feed data in parts, then take the hash
/// of everything fed.
pub struct HashBuilder {
    algorithm: HashAlgorithm,
    hasher: HashBuilderInner,
}

impl HashBuilder {
    /// The running state belongs to the builder's algorithm.
    pub closed spec fn wf(&self) -> bool {
        match self.hasher {
            HashBuilderInner::Sha256(_) => self.algorithm is Sha256,
            HashBuilderInner::Sha384(_) => self.algorithm is Sha384,
            HashBuilderInner::Sha512(_) => self.algorithm is Sha512,
        }
    }

    /// The algorithm of the builder.
    pub closed spec fn hash_algorithm(&self) -> HashAlgorithm {
        self.algorithm
    }

    /// Everything fed to the builder so far, in order.
    pub closed spec fn fed(&self) -> Seq<u8> {
        inner_fed(self.hasher)
    }

    /// A builder for `algorithm` that has been fed nothing.
    pub fn new(algorithm: HashAlgorithm) -> (r: Self)
        ensures
            r.wf(),
            r.hash_algorithm() == algorithm,
            r.fed() == Seq::<u8>::empty(),
    {
        let hasher = match algorithm {
            HashAlgorithm::Sha256 => HashBuilderInner::Sha256(sha256_new()),
            HashAlgorithm::Sha384 => HashBuilderInner::Sha384(sha384_new()),
            HashAlgorithm::Sha512 => HashBuilderInner::Sha512(sha512_new()),
        };
        HashBuilder { algorithm, hasher }
    }

    /// Feeds `data` after what was fed before.
    pub fn update(&mut self, data: &[u8])
        requires
            old(self).wf(),
        ensures
            final(self).wf(),
            final(self).hash_algorithm() == old(self).hash_algorithm(),
            final(self).fed() == old(self).fed() + data@,
    {
        update_inner(&mut self.hasher, data);
    }

    /// The hash of everything fed, as lowercase hexadecimal text: the same
    /// as hashing all of it at once.
    pub fn finalize(self) -> (r: String)
        requires
            self.wf(),
        ensures
            r@ == hash_text_of(self.hash_algorithm(), self.fed()),
    {
        let digest = match self.hasher {
            HashBuilderInner::Sha256(h) => sha256_finalize(h),
            HashBuilderInner::Sha384(h) => sha384_finalize(h),
            HashBuilderInner::Sha512(h) => sha512_finalize(h),
        };
        hex_encode(digest.as_slice())
    }

    /// The algorithm of the builder.
    pub fn algorithm(&self) -> (r: HashAlgorithm)
        ensures
            r == self.hash_algorithm(),
    {
        self.algorithm
    }
}

/// The bytes of the chunks, one after the other.
pub open spec fn concat_chunks(chunks: Seq<Seq<u8>>) -> Seq<u8>
    decreases chunks.len(),
{
    if chunks.len() == 0 {
        Seq::empty()
    } else {
        concat_chunks(chunks.drop_last()) + chunks.last()
    }
}

/// Incremental hashing is one-shot hashing: a builder made by
/// `HashBuilder::new(a)` and then fed `chunks` one after the other by
/// `update` has been fed all the chunks at once, so `finalize` gives the
/// hash of their concatenation under `a`. `states[i]` is the builder before
/// the `i`-th update, as the contracts of `new` and `update` describe it:
/// empty at first, its algorithm kept, each update appending its chunk.
pub proof fn incremental_hash_is_one_shot(
    a: HashAlgorithm,
    chunks: Seq<Seq<u8>>,
    states: Seq<HashBuilder>,
)
    requires
        states.len() == chunks.len() + 1,
        states[0].fed() == Seq::<u8>::empty(),
        forall|i: int| 0 <= i < states.len() ==> #[trigger] states[i].hash_algorithm() == a,
        forall|i: int|
            0 <= i < chunks.len() ==> states[i + 1].fed() == states[i].fed() + #[trigger] chunks[i],
    ensures
        states.last().hash_algorithm() == a,
        states.last().fed() == concat_chunks(chunks),
        hash_text_of(states.last().hash_algorithm(), states.last().fed()) == hash_text_of(
            a,
            concat_chunks(chunks),
        ),
    decreases chunks.len(),
{
    if chunks.len() == 0 {
        assert(states.last() == states[0]);
    } else {
        let n = chunks.len() - 1;
        let cs = chunks.drop_last();
        let ss = states.drop_last();
        assert forall|i: int| 0 <= i < cs.len() implies ss[i + 1].fed() == ss[i].fed()
            + #[trigger] cs[i] by {
            assert(cs[i] == chunks[i]);
            assert(ss[i] == states[i]);
            assert(ss[i + 1] == states[i + 1]);
        }
        assert(ss[0] == states[0]);
        incremental_hash_is_one_shot(a, cs, ss);
        assert(chunks[n] == chunks.last());
        assert(ss.last() == states[n]);
        assert(states[n + 1] == states.last());
    }
}

/// Types that can be hashed.
pub trait Hasher {
    /// The bytes that are hashed.
    spec fn hashed_bytes(&self) -> Seq<u8>;

    /// The hash with `algorithm`.
    fn hash(&self, algorithm: HashAlgorithm) -> (r: String)
        ensures
            r@ == hash_text_of(algorithm, self.hashed_bytes()),
    ;

    /// The hash with the default algorithm, SHA-384.
    fn hash_default(&self) -> (r: String)
        ensures
            r@ == hash_text_of(HashAlgorithm::Sha384, self.hashed_bytes()),
    {
        self.hash(HashAlgorithm::default())
    }

    /// The hash with the strategy that suits the given hardware, which is
    /// the same as the plain hash.
    fn hash_optimized(&self, algorithm: HashAlgorithm, capabilities: &HardwareCapabilities) -> (r:
        String)
        ensures
            r@ == hash_text_of(algorithm, self.hashed_bytes()),
    ;
}

impl Hasher for [u8] {
    open spec fn hashed_bytes(&self) -> Seq<u8> {
        self@
    }

    fn hash(&self, algorithm: HashAlgorithm) -> (r: String) {
        calculate_hash_with_algorithm(self, &algorithm)
    }

    fn hash_optimized(&self, algorithm: HashAlgorithm, capabilities: &HardwareCapabilities) -> (r:
        String) {
        calculate_hash_optimized(self, algorithm, capabilities)
    }
}

impl Hasher for str {
    open spec fn hashed_bytes(&self) -> Seq<u8> {
        vstd::utf8::encode_utf8(self@)
    }

    fn hash(&self, algorithm: HashAlgorithm) -> (r: String) {
        self.as_bytes().hash(algorithm)
    }

    fn hash_optimized(&self, algorithm: HashAlgorithm, capabilities: &HardwareCapabilities) -> (r:
        String) {
        self.as_bytes().hash_optimized(algorithm, capabilities)
    }
}

impl Hasher for String {
    open spec fn hashed_bytes(&self) -> Seq<u8> {
        vstd::utf8::encode_utf8(self@)
    }

    fn hash(&self, algorithm: HashAlgorithm) -> (r: String) {
        self.as_str().as_bytes().hash(algorithm)
    }

    fn hash_optimized(&self, algorithm: HashAlgorithm, capabilities: &HardwareCapabilities) -> (r:
        String) {
        self.as_str().as_bytes().hash_optimized(algorithm, capabilities)
    }
}

/// Hashes many inputs with the strategy that suits the hardware.
pub struct BatchHasher {
    capabilities: HardwareCapabilities,
}

impl View for BatchHasher {
    type V = HardwareCapabilities;

    closed spec fn view(&self) -> HardwareCapabilities {
        self.capabilities
    }
}

impl BatchHasher {
    /// A batch hasher for the given hardware.
    pub fn new(capabilities: HardwareCapabilities) -> (r: Self)
        ensures
            r@ == capabilities,
    {
        BatchHasher { capabilities }
    }

    /// The hardware the batch hasher hashes for.
    pub fn capabilities(&self) -> (r: HardwareCapabilities)
        ensures
            r == self@,
    {
        self.capabilities
    }

    /// Whether a batch of `count` inputs is worth spreading over threads:
    /// at least four inputs on at least four cores. The hashes are the same
    /// either way.
    pub fn spreads_over_threads(&self, count: usize) -> (r: bool)
        ensures
            r == (count >= 4 && self@.cpu_cores >= 4),
    {
        !(count < 4 || self.capabilities.cpu_cores < 4)
    }

    /// The hashes of `inputs`, in order, each computed with the strategy
    /// that suits this hardware: the plain hash of the input.
    pub fn hash_batch(&self, inputs: &[&[u8]], algorithm: HashAlgorithm) -> (r: Vec<String>)
        ensures
            r@.len() == inputs@.len(),
            forall|i: int|
                0 <= i < inputs@.len() ==> #[trigger] r@[i]@ == hash_text_of(algorithm, inputs@[i]@),
    {
        let mut out: Vec<String> = Vec::new();
        let mut i: usize = 0;
        while i < inputs.len()
            invariant
                i <= inputs@.len(),
                out@.len() == i,
                forall|j: int|
                    0 <= j < i ==> #[trigger] out@[j]@ == hash_text_of(algorithm, inputs@[j]@),
            decreases inputs@.len() - i,
        {
            out.push(calculate_hash_optimized(inputs[i], algorithm, &self.capabilities));
            i += 1;
        }
        out
    }
}

} // verus!
