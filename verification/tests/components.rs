use blurhash_cli::components::{
    validate_components, DEFAULT_COMPONENTS_X, DEFAULT_COMPONENTS_Y, MAX_COMPONENTS,
    MIN_COMPONENTS,
};
use blurhash_cli::error::HashError;

struct Cli {
    #[allow(dead_code)]
    image: String,
    components_x: Option<u32>,
    components_y: Option<u32>,
}

fn validate_cli_parameters(cli: &Cli) -> Result<(), HashError> {
    validate_components(cli.components_x, cli.components_y).map(|_| ())
}

#[test]
fn test_cli_parameters() {
    // Test valid component ranges
    let cli = Cli {
        image: "test.jpg".to_string(),
        components_x: Some(4),
        components_y: Some(3),
    };
    assert!(validate_cli_parameters(&cli).is_ok());

    // Test minimum valid values
    let cli = Cli {
        image: "test.jpg".to_string(),
        components_x: Some(1),
        components_y: Some(1),
    };
    assert!(validate_cli_parameters(&cli).is_ok());

    // Test maximum valid values
    let cli = Cli {
        image: "test.jpg".to_string(),
        components_x: Some(9),
        components_y: Some(9),
    };
    assert!(validate_cli_parameters(&cli).is_ok());

    // Test invalid component ranges
    let cli = Cli {
        image: "test.jpg".to_string(),
        components_x: Some(10),
        components_y: Some(3),
    };
    assert!(validate_cli_parameters(&cli).is_err());

    let cli = Cli {
        image: "test.jpg".to_string(),
        components_x: Some(4),
        components_y: Some(10),
    };
    assert!(validate_cli_parameters(&cli).is_err());

    let cli = Cli {
        image: "test.jpg".to_string(),
        components_x: Some(0),
        components_y: Some(3),
    };
    assert!(validate_cli_parameters(&cli).is_err());

    // Test missing components
    let cli = Cli {
        image: "test.jpg".to_string(),
        components_x: Some(4),
        components_y: None,
    };
    assert!(validate_cli_parameters(&cli).is_err());

    let cli = Cli {
        image: "test.jpg".to_string(),
        components_x: None,
        components_y: Some(3),
    };
    assert!(validate_cli_parameters(&cli).is_err());

    // Test default values (both None is valid)
    let cli = Cli {
        image: "test.jpg".to_string(),
        components_x: None,
        components_y: None,
    };
    assert!(validate_cli_parameters(&cli).is_ok());
}

#[test]
fn missing_pair_defaults_to_four_by_three() {
    let counts = validate_components(None, None).unwrap();
    assert_eq!((counts.x(), counts.y()), (4, 3));
    assert_eq!((DEFAULT_COMPONENTS_X, DEFAULT_COMPONENTS_Y), (4, 3));
}

#[test]
fn given_pair_is_returned_as_given() {
    let counts = validate_components(Some(6), Some(2)).unwrap();
    assert_eq!((counts.x(), counts.y()), (6, 2));
}

#[test]
fn every_pair_in_range_is_accepted() {
    for x in MIN_COMPONENTS..=MAX_COMPONENTS {
        for y in MIN_COMPONENTS..=MAX_COMPONENTS {
            let counts = validate_components(Some(x), Some(y)).unwrap();
            assert_eq!((counts.x(), counts.y()), (x, y));
        }
    }
}

#[test]
fn lone_count_is_mismatched() {
    assert_eq!(validate_components(Some(4), None), Err(HashError::MismatchedComponents));
    assert_eq!(validate_components(None, Some(3)), Err(HashError::MismatchedComponents));
}

#[test]
fn lone_count_out_of_range_is_still_mismatched() {
    assert_eq!(validate_components(Some(10), None), Err(HashError::MismatchedComponents));
    assert_eq!(validate_components(None, Some(0)), Err(HashError::MismatchedComponents));
}

#[test]
fn count_out_of_range_is_refused() {
    assert_eq!(validate_components(Some(10), Some(3)), Err(HashError::OutOfRangeComponents));
    assert_eq!(validate_components(Some(0), Some(3)), Err(HashError::OutOfRangeComponents));
    assert_eq!(validate_components(Some(4), Some(10)), Err(HashError::OutOfRangeComponents));
    assert_eq!(validate_components(Some(4), Some(0)), Err(HashError::OutOfRangeComponents));
    assert_eq!(
        validate_components(Some(u32::MAX), Some(u32::MAX)),
        Err(HashError::OutOfRangeComponents)
    );
}

#[test]
fn messages_of_the_failures() {
    assert_eq!(
        HashError::MismatchedComponents.message(),
        "If specifying components, both -x and -y must be provided"
    );
    assert_eq!(
        HashError::OutOfRangeComponents.message(),
        "The values of each component needs to be 1-9"
    );
    assert_eq!(
        HashError::LoadError("no such file".to_string()).message(),
        "Failed to load image: no such file"
    );
    assert_eq!(HashError::EncodeFailure.message(), "Error during Blurhash encoding");
}
