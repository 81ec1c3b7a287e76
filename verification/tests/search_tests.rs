use vanity_4b::{calculate_keccak_256, generate_vanity_function_name, search_range, HashCounter};

#[test]
fn test_generate_vanity_function_name() {
    // Test with known solution
    let solution = generate_vanity_function_name(
        b"1234",            // Pattern to match
        b"transfer",        // Function name
        b"address,uint256", // Parameters
        0,                  // Start range
        Some(1000000),      // End range (limit for faster test)
    );

    assert!(solution.is_some());

    // Verify the solution
    let solution_index = solution.unwrap();
    let function_name = format!("transfer{}(address,uint256)", solution_index);
    let hash = calculate_keccak_256(function_name.as_bytes());

    assert_eq!(format!("{:02x}{:02x}", hash[0], hash[1]), "1234");
}

#[test]
fn test_empty_pattern() {
    // Empty pattern should match anything
    let solution = generate_vanity_function_name(
        b"",     // Empty pattern
        b"test", // Function name
        b"",     // No parameters
        0,
        Some(10), // Should find solution quickly
    );

    assert!(solution.is_some());
    assert_eq!(solution.unwrap(), 0); // Should return 0 as first match
}

#[test]
fn test_empty_function_name() {
    // Not a valid Solidity function, but should still hash
    let solution = generate_vanity_function_name(
        b"1234",
        b"", // Empty function name
        b"",
        0,
        Some(10000),
    );

    // The test should either find a solution or reach the end
    if let Some(solution_index) = solution {
        let function_name = format!("{}()", solution_index);
        let hash = calculate_keccak_256(function_name.as_bytes());
        assert_eq!(format!("{:02x}{:02x}", hash[0], hash[1]), "1234");
    }
}

#[test]
fn test_long_inputs() {
    let long_name = "veryLongFunctionNameThatMightCauseIssuesIfNotHandledProperly";
    let long_params = "address,uint256,string,bytes32,bool,address[],uint256[]";

    let solution = generate_vanity_function_name(
        b"1234",
        long_name.as_bytes(),
        long_params.as_bytes(),
        0,
        Some(10000), // Limit for test speed
    );

    // Either finds a solution or reaches the limit without panicking
    if let Some(solution_index) = solution {
        let function_name = format!("{}{}({})", long_name, solution_index, long_params);
        let hash = calculate_keccak_256(function_name.as_bytes());
        assert_eq!(format!("{:02x}{:02x}", hash[0], hash[1]), "1234");
    }
}

#[test]
fn test_full_pattern_matching() {
    // Prepare known function that produces a specific hash
    let fn_name = "transfer";
    let fn_params = "address,uint256";
    let fn_suffix = "12345"; // Known suffix that produces desired hash

    let full_fn = format!("{}{}({})", fn_name, fn_suffix, fn_params);
    let hash = calculate_keccak_256(full_fn.as_bytes());

    // Extract the pattern from the hash
    let pattern = format!(
        "{:02x}{:02x}{:02x}{:02x}",
        hash[0], hash[1], hash[2], hash[3]
    );

    // Try to find the function with our generator
    let solution = generate_vanity_function_name(
        pattern.as_bytes(),
        fn_name.as_bytes(),
        fn_params.as_bytes(),
        0,
        Some(100000), // Should find the match within this range
    );

    assert!(solution.is_some());
    assert_eq!(solution.unwrap(), 12345);
}

#[test]
fn test_complete_workflow() {
    // This test simulates the complete command but with a small range
    let pattern = "0x1234";
    let fn_name = "simpleTest";
    let fn_params = "uint256";

    // Run the generator with a small range
    let solution = generate_vanity_function_name(
        pattern[2..].as_bytes(),
        fn_name.as_bytes(),
        fn_params.as_bytes(),
        0,
        Some(100000),
    );

    assert!(solution.is_some());

    let solution_index = solution.unwrap();
    let full_name = format!("{}{}({})", fn_name, solution_index, fn_params);
    let hash = calculate_keccak_256(full_name.as_bytes());

    assert_eq!(format!("0x{:02x}{:02x}", hash[0], hash[1]), pattern);
}

#[test]
fn test_range_completeness() {
    // The pattern of "transfer12345(address,uint256)" has index 12345 as its
    // only hit in [0, 100000): searching past it comes back empty.
    let hash = calculate_keccak_256(b"transfer12345(address,uint256)");
    let pattern = format!(
        "{:02x}{:02x}{:02x}{:02x}",
        hash[0], hash[1], hash[2], hash[3]
    );

    let found = generate_vanity_function_name(
        pattern.as_bytes(),
        b"transfer",
        b"address,uint256",
        0,
        Some(100000),
    );
    assert_eq!(found, Some(12345));

    let rest = generate_vanity_function_name(
        pattern.as_bytes(),
        b"transfer",
        b"address,uint256",
        12346,
        Some(100000),
    );
    assert_eq!(rest, None);
}

#[test]
fn test_thread_count_invariance() {
    // With exactly one hit in the range, one worker and several workers must
    // both report it.
    let hash = calculate_keccak_256(b"transfer12345(address,uint256)");
    let pattern = format!(
        "{:02x}{:02x}{:02x}{:02x}",
        hash[0], hash[1], hash[2], hash[3]
    );

    let run = |threads: usize| {
        let pool = rayon::ThreadPoolBuilder::new()
            .num_threads(threads)
            .build()
            .unwrap();
        pool.install(|| {
            generate_vanity_function_name(
                pattern.as_bytes(),
                b"transfer",
                b"address,uint256",
                0,
                Some(100000),
            )
        })
    };

    let with_one = run(1);
    let with_many = run(4);
    assert_eq!(with_one, Some(12345));
    assert_eq!(with_many, Some(12345));
}

#[test]
fn test_search_range_counts_hashes() {
    // A pattern with no hit in the range forces every index to be examined;
    // index 0 lies on the sampling boundary, so one coarse batch is counted.
    let counter = HashCounter::new();
    let result = search_range(b"deadbeef", b"test", b"", 0, Some(10), &counter);
    assert_eq!(result, None);
    assert_eq!(counter.load(), 1048575);
}
