use lc3::config::Config;

#[test]
fn config_valid_arguments() {
    let args = [String::from("program_name"), String::from("filename")].to_vec();

    assert_eq!(
        Config::with(&args).unwrap().filename,
        String::from("filename")
    );
    assert_eq!(Config::with(&args).unwrap().debug, false);
}

#[test]
fn config_not_enough_arguments() {
    let args = [String::from("program_name")].to_vec();

    assert_eq!(Config::with(&args), Err("not enough arguments"));
}

#[test]
fn config_with_debug() {
    let args = [
        String::from("program_name"),
        String::from("filename"),
        String::from("--debug"),
    ]
    .to_vec();

    assert_eq!(
        Config::with(&args).unwrap().filename,
        String::from("filename")
    );
    assert_eq!(Config::with(&args).unwrap().debug, true);
}

#[test]
fn config_with_debug_first() {
    let args = [
        String::from("program_name"),
        String::from("--debug"),
        String::from("filename"),
    ]
    .to_vec();

    assert_eq!(
        Config::with(&args).unwrap().filename,
        String::from("filename")
    );
    assert_eq!(Config::with(&args).unwrap().debug, true);
}
