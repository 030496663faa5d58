use atlas_common::hash::algorithms::{
    detect_arm_crypto, detect_cpu_vendor, OptimizationStrategy, MIB,
};
use atlas_common::hash::{
    calculate_hash_optimized, calculate_hash_with_algorithm, get_hardware_capabilities,
    BatchHasher, CpuProbe, CpuVendor, HardwareCapabilities, HashAlgorithm, Hasher, TargetArch,
};

fn plain_probe() -> CpuProbe {
    CpuProbe {
        arch: TargetArch::Other,
        macos: false,
        avx: false,
        sha: false,
        avx512f: false,
        aes: false,
        sha2: false,
    }
}

fn caps(vendor: CpuVendor, cores: usize, sha: bool, avx512: bool, arm: bool) -> HardwareCapabilities {
    HardwareCapabilities {
        sha_extensions: sha,
        avx512,
        arm_crypto: arm,
        cpu_cores: cores,
        cpu_vendor: vendor,
    }
}

#[test]
fn test_hardware_capabilities() {
    let caps = get_hardware_capabilities(&plain_probe());
    assert!(caps.cpu_cores > 0);

    println!("Detected hardware:");
    println!("  CPU vendor: {:?}", caps.cpu_vendor);
    println!("  CPU cores: {}", caps.cpu_cores);
    println!("  Intel SHA-NI: {}", caps.sha_extensions);
    println!("  Intel AVX-512: {}", caps.avx512);
    println!("  ARM crypto: {}", caps.arm_crypto);
    println!(
        "  Optimal chunk size: {} MB",
        caps.optimal_chunk_size() / (1024 * 1024)
    );
}

#[test]
fn test_optimization_strategy() {
    let test_data = vec![0u8; 10 * 1024 * 1024];
    let caps = get_hardware_capabilities(&plain_probe());

    let start = std::time::Instant::now();
    let _standard = calculate_hash_with_algorithm(&test_data, &HashAlgorithm::Sha256);
    let standard_time = start.elapsed();

    let start = std::time::Instant::now();
    let _optimized = calculate_hash_optimized(&test_data, HashAlgorithm::Sha256, &caps);
    let optimized_time = start.elapsed();

    println!("Performance comparison:");
    println!("  Standard: {:?}", standard_time);
    println!("  Optimized: {:?}", optimized_time);

    if optimized_time < standard_time {
        let speedup = standard_time.as_nanos() as f64 / optimized_time.as_nanos() as f64;
        println!("  Speedup: {:.2}x", speedup);
    }
}

#[test]
fn test_correctness() {
    let data = b"test data for correctness verification";
    let caps = get_hardware_capabilities(&plain_probe());

    let standard = calculate_hash_with_algorithm(data, &HashAlgorithm::Sha256);
    let optimized = calculate_hash_optimized(data, HashAlgorithm::Sha256, &caps);

    assert_eq!(
        standard, optimized,
        "Optimized and standard implementations must produce identical results"
    );
}

#[test]
fn optimal_chunk_sizes() {
    assert_eq!(caps(CpuVendor::Apple, 8, false, false, true).optimal_chunk_size(), 32 * MIB);
    assert_eq!(caps(CpuVendor::Apple, 10, false, false, true).optimal_chunk_size(), 64 * MIB);
    assert_eq!(caps(CpuVendor::Intel, 16, true, true, false).optimal_chunk_size(), 128 * MIB);
    assert_eq!(caps(CpuVendor::Intel, 16, true, false, false).optimal_chunk_size(), 64 * MIB);
    assert_eq!(caps(CpuVendor::Amd, 4, false, false, false).optimal_chunk_size(), 16 * MIB);
    assert_eq!(caps(CpuVendor::Other, 6, false, false, false).optimal_chunk_size(), 32 * MIB);
    assert_eq!(caps(CpuVendor::Other, 12, false, false, false).optimal_chunk_size(), 64 * MIB);
    assert_eq!(caps(CpuVendor::Other, 32, false, false, false).optimal_chunk_size(), 128 * MIB);
    assert_eq!(caps(CpuVendor::Other, 0, false, false, false).optimal_chunk_size(), 128 * MIB);
}

#[test]
fn strategy_selection() {
    let apple = caps(CpuVendor::Apple, 8, false, false, true);
    assert_eq!(OptimizationStrategy::select(&apple, 1), OptimizationStrategy::AppleSilicon);
    let xeon = caps(CpuVendor::Intel, 16, true, true, false);
    assert_eq!(OptimizationStrategy::select(&xeon, 1), OptimizationStrategy::IntelXeon);
    let core = caps(CpuVendor::Intel, 8, true, false, false);
    assert_eq!(OptimizationStrategy::select(&core, 1), OptimizationStrategy::IntelCore);
    let amd = caps(CpuVendor::Amd, 8, false, false, false);
    assert_eq!(OptimizationStrategy::select(&amd, 1), OptimizationStrategy::Amd);
    let other = caps(CpuVendor::Other, 4, false, false, false);
    assert_eq!(OptimizationStrategy::select(&other, 16 * MIB), OptimizationStrategy::MultiCore);
    assert_eq!(OptimizationStrategy::select(&other, 16 * MIB - 1), OptimizationStrategy::Software);
    let small = caps(CpuVendor::Other, 3, false, false, false);
    assert_eq!(OptimizationStrategy::select(&small, 64 * MIB), OptimizationStrategy::Software);
}

#[test]
fn chunked_strategies_give_the_standard_hash() {
    let chunk = 16 * MIB;
    let other = caps(CpuVendor::Other, 4, false, false, false);
    for (c, size) in [(other, chunk + 1), (other, 2 * chunk + 5)] {
        let data: Vec<u8> = (0..size).map(|i| (i % 251) as u8).collect();
        assert_eq!(
            calculate_hash_optimized(&data, HashAlgorithm::Sha256, &c),
            calculate_hash_with_algorithm(&data, &HashAlgorithm::Sha256)
        );
    }
    let exact = vec![7u8; chunk];
    assert_eq!(
        calculate_hash_optimized(&exact, HashAlgorithm::Sha256, &other),
        calculate_hash_with_algorithm(&exact, &HashAlgorithm::Sha256)
    );
}

#[test]
fn small_data_gets_the_standard_hash_on_any_hardware() {
    let data = b"small";
    for c in [
        caps(CpuVendor::Apple, 8, false, false, true),
        caps(CpuVendor::Intel, 64, true, true, false),
        caps(CpuVendor::Amd, 2, false, false, false),
        caps(CpuVendor::Other, 128, false, false, false),
    ] {
        assert_eq!(
            calculate_hash_optimized(data, HashAlgorithm::Sha512, &c),
            calculate_hash_with_algorithm(data, &HashAlgorithm::Sha512)
        );
        assert_eq!(
            data.as_slice().hash_optimized(HashAlgorithm::Sha512, &c),
            calculate_hash_with_algorithm(data, &HashAlgorithm::Sha512)
        );
    }
}

#[test]
fn batch_hashing_keeps_order() {
    let c = caps(CpuVendor::Other, 8, false, false, false);
    let hasher = BatchHasher::new(c);
    let inputs: Vec<&[u8]> = vec![b"a", b"b", b"c", b"d", b"e"];
    assert!(hasher.spreads_over_threads(5));
    assert!(!hasher.spreads_over_threads(3));
    assert!(!BatchHasher::new(caps(CpuVendor::Other, 2, false, false, false)).spreads_over_threads(100));
    assert_eq!(hasher.capabilities().cpu_cores, 8);
    let hashes = hasher.hash_batch(&inputs, HashAlgorithm::Sha256);
    assert_eq!(hashes.len(), 5);
    for (h, d) in hashes.iter().zip(inputs.iter()) {
        assert_eq!(h, &calculate_hash_with_algorithm(d, &HashAlgorithm::Sha256));
    }
}

#[test]
fn detection_from_probe() {
    let mut p = plain_probe();
    assert_eq!(detect_cpu_vendor(&p), CpuVendor::Other);
    p.arch = TargetArch::X86_64;
    p.avx = true;
    p.sha = true;
    assert_eq!(detect_cpu_vendor(&p), CpuVendor::Intel);
    let c = get_hardware_capabilities(&p);
    assert!(c.sha_extensions);
    assert!(!c.arm_crypto);
    p.arch = TargetArch::Aarch64;
    p.macos = true;
    assert_eq!(detect_cpu_vendor(&p), CpuVendor::Apple);
    assert!(detect_arm_crypto(&p));
    p.macos = false;
    assert!(!detect_arm_crypto(&p));
    p.aes = true;
    p.sha2 = true;
    assert!(detect_arm_crypto(&p));
    let c = HardwareCapabilities::detect(&p);
    assert!(c.arm_crypto && !c.sha_extensions && c.cpu_vendor == CpuVendor::Other);
}
