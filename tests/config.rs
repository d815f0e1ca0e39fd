use rustracer::config::{ArgValues, Config, ConfigError};

fn no_args() -> ArgValues {
    ArgValues {
        thread_count: None,
        chunk_count: None,
        sample_count: None,
        scene: None,
        output_image: None,
        output_width: None,
        output_height: None,
    }
}

#[test]
fn defaults_fill_missing_options() {
    let config = Config::new(no_args());
    assert_eq!(config.thread_count, 8);
    assert_eq!(config.chunk_count, 100);
    assert_eq!(config.sample_count, 300);
    assert_eq!(config.scene, "");
    assert_eq!(config.output_image, "output.ppm");
    assert_eq!(config.output_size, (400, 200));
    assert_eq!(config.validate(), Ok(()));
}

#[test]
fn given_options_are_kept() {
    let config = Config::new(ArgValues {
        thread_count: Some(2),
        chunk_count: Some(4),
        sample_count: Some(1),
        scene: Some("spheres".to_string()),
        output_image: Some("out.ppm".to_string()),
        output_width: Some(2),
        output_height: Some(3),
    });
    assert_eq!(config.thread_count, 2);
    assert_eq!(config.chunk_count, 4);
    assert_eq!(config.sample_count, 1);
    assert_eq!(config.scene, "spheres");
    assert_eq!(config.output_image, "out.ppm");
    assert_eq!(config.output_size, (2, 3));
    let copy = config.clone();
    assert_eq!(copy.output_image, "out.ppm");
    assert_eq!(copy.output_size, (2, 3));
}

#[test]
fn each_fault_is_reported() {
    let mut args = no_args();
    args.thread_count = Some(0);
    assert_eq!(Config::new(args).validate(), Err(ConfigError::NoThreads));

    let mut args = no_args();
    args.chunk_count = Some(0);
    assert_eq!(Config::new(args).validate(), Err(ConfigError::NoChunks));

    let mut args = no_args();
    args.sample_count = Some(0);
    assert_eq!(Config::new(args).validate(), Err(ConfigError::NoSamples));

    let mut args = no_args();
    args.output_width = Some(0);
    assert_eq!(Config::new(args).validate(), Err(ConfigError::EmptyImage));

    let mut args = no_args();
    args.output_height = Some(0);
    assert_eq!(Config::new(args).validate(), Err(ConfigError::EmptyImage));

    let mut args = no_args();
    args.output_width = Some(usize::MAX / 2);
    args.output_height = Some(2);
    assert_eq!(Config::new(args).validate(), Err(ConfigError::ImageTooLarge));
}

#[test]
fn first_fault_wins() {
    let mut args = no_args();
    args.thread_count = Some(0);
    args.chunk_count = Some(0);
    args.output_width = Some(0);
    assert_eq!(Config::new(args).validate(), Err(ConfigError::NoThreads));
}
