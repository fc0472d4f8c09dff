use character_twister::config::default_config;
use character_twister::file::{parse_config_file, read_config_file, FileError};

fn nested_arrays(depth: usize) -> String {
    format!("list = {}{}\n", "[".repeat(depth), "]".repeat(depth))
}

fn nested_tables(depth: usize) -> String {
    format!("inline = {}1{}\n", "{ b = ".repeat(depth), " }".repeat(depth))
}

fn long_header(depth: usize) -> String {
    format!("[{}a]\nx = 1\n", "a.".repeat(depth))
}

fn long_key(depth: usize) -> String {
    format!("{}k = 1\n", "k.".repeat(depth))
}

#[test]
fn deeply_nested_documents_are_turned_down() {
    for depth in [200, 1000, 100000] {
        for input in [nested_arrays(depth), nested_tables(depth), long_header(depth), long_key(depth)] {
            assert!(matches!(read_config_file(&input), Err(FileError::Syntax(_))), "{}", depth);
            assert_eq!(parse_config_file(&input), default_config(), "{}", depth);
        }
    }
}

#[test]
fn nesting_has_a_depth_that_is_read() {
    let mut deepest = 0;
    for depth in 1..200 {
        let input = format!(
            "input_path = \"deep\"\n{}{}{}{}",
            long_header(depth),
            long_key(depth),
            nested_arrays(depth),
            nested_tables(depth)
        );
        if read_config_file(&input).is_ok() {
            deepest = depth;
            assert_eq!(parse_config_file(&input).input_path, "deep");
        } else {
            assert_eq!(parse_config_file(&input), default_config());
        }
    }
    assert!(deepest >= 10);
}
