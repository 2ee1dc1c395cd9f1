use point_cloud_viewer::args_parser::{ArgMatches, Args, ArgsError, IPCFiles};

fn matches() -> ArgMatches {
    ArgMatches {
        render_initial_point_cloud: None,
        data_files: None,
        mutex_files: None,
        display_lidar_pos: None,
        sleep_duration: None,
    }
}

fn texts(values: &[&str]) -> Option<Vec<String>> {
    Some(values.iter().map(|value| value.to_string()).collect())
}

#[test]
fn an_initial_cloud_alone_is_enough() {
    let args = Args::parse_args(&ArgMatches {
        render_initial_point_cloud: Some("cloud.txt".to_string()),
        ..matches()
    })
    .unwrap();
    assert_eq!(args.initial_data_model, Some("cloud.txt".to_string()));
    assert!(args.ipc_files.is_empty());
    assert!(!args.display_lidar_pos);
    assert_eq!(args.sleep_duration_ms, 250);
    assert!(!args.using_file_ipc());
}

#[test]
fn files_are_paired_in_order() {
    let args = Args::parse_args(&ArgMatches {
        data_files: texts(&["a.data", "b.data"]),
        mutex_files: texts(&["a.mutex", "b.mutex"]),
        ..matches()
    })
    .unwrap();
    assert_eq!(args.initial_data_model, None);
    assert_eq!(args.ipc_files.len(), 2);
    assert_eq!(args.ipc_files[0].data_file_names, "a.data");
    assert_eq!(args.ipc_files[0].mutex_file_names, "a.mutex");
    assert_eq!(args.ipc_files[1].data_file_names, "b.data");
    assert_eq!(args.ipc_files[1].mutex_file_names, "b.mutex");
    assert!(args.using_file_ipc());
}

#[test]
fn unequal_file_lists_are_refused() {
    let refused = Args::parse_args(&ArgMatches {
        render_initial_point_cloud: Some("cloud.txt".to_string()),
        data_files: texts(&["a.data", "b.data"]),
        mutex_files: texts(&["a.mutex"]),
        ..matches()
    });
    assert_eq!(refused.err(), Some(ArgsError::FileCountMismatch));
}

#[test]
fn nothing_to_do_is_refused() {
    assert_eq!(Args::parse_args(&matches()).err(), Some(ArgsError::NoWorkSpecified));
    let only_data =
        Args::parse_args(&ArgMatches { data_files: texts(&["a.data"]), ..matches() });
    assert_eq!(only_data.err(), Some(ArgsError::NoWorkSpecified));
    let only_mutex =
        Args::parse_args(&ArgMatches { mutex_files: texts(&["a.mutex"]), ..matches() });
    assert_eq!(only_mutex.err(), Some(ArgsError::NoWorkSpecified));
}

#[test]
fn one_list_of_files_beside_an_initial_cloud_is_ignored() {
    let args = Args::parse_args(&ArgMatches {
        render_initial_point_cloud: Some("cloud.txt".to_string()),
        data_files: texts(&["a.data"]),
        ..matches()
    })
    .unwrap();
    assert!(!args.using_file_ipc());
}

#[test]
fn empty_file_lists_make_no_channel() {
    let refused = Args::parse_args(&ArgMatches {
        data_files: texts(&[]),
        mutex_files: texts(&[]),
        ..matches()
    });
    assert!(refused.is_ok());
    assert!(!refused.unwrap().using_file_ipc());
}

#[test]
fn the_lidar_option_is_on_for_any_number_but_zero() {
    for (text, expected) in [("0", false), ("1", true), ("+0", false), ("007", true), ("00", false)]
    {
        let args = Args::parse_args(&ArgMatches {
            render_initial_point_cloud: Some("cloud.txt".to_string()),
            display_lidar_pos: Some(text.to_string()),
            ..matches()
        })
        .unwrap();
        assert_eq!(args.display_lidar_pos, expected);
    }
}

#[test]
fn the_numeric_options_read_numbers_as_the_standard_library_does() {
    for text in [
        "0",
        "250",
        "+17",
        "0000000000000000000000012",
        "18446744073709551615",
        "18446744073709551616",
        "99999999999999999999",
        "",
        "+",
        "-",
        "-0",
        "-5",
        "++5",
        "5+",
        " 5",
        "5 ",
        "1_000",
        "0x10",
        "1e3",
        "1.0",
        "٣",
        "five",
    ] {
        let parsed = Args::parse_args(&ArgMatches {
            render_initial_point_cloud: Some("cloud.txt".to_string()),
            sleep_duration: Some(text.to_string()),
            ..matches()
        });
        match text.parse::<u64>() {
            Ok(number) => assert_eq!(parsed.unwrap().sleep_duration_ms, number),
            Err(_) => assert_eq!(parsed.err(), Some(ArgsError::InvalidSleepDuration)),
        }
    }
}

#[test]
fn a_bad_lidar_option_is_reported_before_a_bad_sleep_duration() {
    let refused = Args::parse_args(&ArgMatches {
        render_initial_point_cloud: Some("cloud.txt".to_string()),
        display_lidar_pos: Some("yes".to_string()),
        sleep_duration: Some("soon".to_string()),
        ..matches()
    });
    assert_eq!(refused.err(), Some(ArgsError::InvalidDisplayLidarPos));
    let refused = Args::parse_args(&ArgMatches {
        display_lidar_pos: Some("yes".to_string()),
        ..matches()
    });
    assert_eq!(refused.err(), Some(ArgsError::NoWorkSpecified));
}

#[test]
fn a_refused_command_line_leaves_the_arguments_alone() {
    let mut args = Args {
        initial_data_model: Some("old.txt".to_string()),
        ipc_files: vec![IPCFiles {
            mutex_file_names: "m".to_string(),
            data_file_names: "d".to_string(),
        }],
        display_lidar_pos: true,
        sleep_duration_ms: 9,
    };
    let outcome = Args::extract_validate_input(
        &ArgMatches {
            render_initial_point_cloud: Some("new.txt".to_string()),
            data_files: texts(&["a.data"]),
            mutex_files: texts(&["a.mutex"]),
            sleep_duration: Some("x".to_string()),
            ..matches()
        },
        &mut args,
    );
    assert_eq!(outcome, Err(ArgsError::InvalidSleepDuration));
    assert_eq!(args.initial_data_model, Some("old.txt".to_string()));
    assert_eq!(args.ipc_files.len(), 1);
    assert!(args.display_lidar_pos);
    assert_eq!(args.sleep_duration_ms, 9);
}

#[test]
fn an_accepted_command_line_adds_to_the_arguments() {
    let mut args = Args {
        initial_data_model: Some("old.txt".to_string()),
        ipc_files: vec![IPCFiles {
            mutex_file_names: "m".to_string(),
            data_file_names: "d".to_string(),
        }],
        display_lidar_pos: true,
        sleep_duration_ms: 9,
    };
    let outcome = Args::extract_validate_input(
        &ArgMatches {
            data_files: texts(&["a.data"]),
            mutex_files: texts(&["a.mutex"]),
            sleep_duration: Some("40".to_string()),
            ..matches()
        },
        &mut args,
    );
    assert_eq!(outcome, Ok(()));
    assert_eq!(args.initial_data_model, None);
    assert_eq!(args.ipc_files.len(), 2);
    assert_eq!(args.ipc_files[0].data_file_names, "d");
    assert_eq!(args.ipc_files[1].mutex_file_names, "a.mutex");
    assert!(args.display_lidar_pos);
    assert_eq!(args.sleep_duration_ms, 40);
}
