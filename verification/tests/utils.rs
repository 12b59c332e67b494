use cpp_bridge::utils::{
    add_to_multihash, command_output, exe_suffix, new_path_items, CommandError, MapIfOk,
    ProgressBar,
};
use std::collections::HashMap;

#[test]
fn exe_suffix_by_platform() {
    assert_eq!(exe_suffix(true), ".exe");
    assert_eq!(exe_suffix(false), "");
}

#[test]
fn multihash_enters_absent_keys() {
    let mut hash: HashMap<u64, Vec<&str>> = HashMap::new();
    add_to_multihash(&mut hash, 1, "a");
    assert_eq!(hash.len(), 1);
    assert_eq!(hash[&1], vec!["a"]);
}

#[test]
fn multihash_appends_to_present_keys() {
    let mut hash: HashMap<u64, Vec<&str>> = HashMap::new();
    add_to_multihash(&mut hash, 1, "a");
    add_to_multihash(&mut hash, 2, "b");
    add_to_multihash(&mut hash, 1, "c");
    add_to_multihash(&mut hash, 1, "a");
    assert_eq!(hash.len(), 2);
    assert_eq!(hash[&1], vec!["a", "c", "a"]);
    assert_eq!(hash[&2], vec!["b"]);
}

#[test]
fn multihash_takes_text_keys() {
    let mut hash: HashMap<String, Vec<u32>> = HashMap::new();
    add_to_multihash(&mut hash, "x".to_string(), 1);
    add_to_multihash(&mut hash, "x".to_string(), 2);
    assert_eq!(hash["x"], vec![1, 2]);
}

#[test]
fn map_if_ok_maps_every_item_in_order() {
    let mapped: Result<Vec<u32>, String> = vec![1u32, 2, 3].map_if_ok(|x| Ok(x * 10));
    assert_eq!(mapped, Ok(vec![10, 20, 30]));
}

#[test]
fn map_if_ok_of_nothing() {
    let mapped: Result<Vec<u32>, String> = Vec::<u32>::new().map_if_ok(|x| Ok(x));
    assert_eq!(mapped, Ok(Vec::new()));
}

#[test]
fn map_if_ok_returns_the_first_failure() {
    let mapped: Result<Vec<u32>, String> = vec![1u32, 2, 3, 4].map_if_ok(|x| {
        if x % 2 == 0 {
            Err(format!("even: {}", x))
        } else {
            Ok(x)
        }
    });
    assert_eq!(mapped, Err("even: 2".to_string()));
}

#[test]
fn map_if_ok_stops_at_the_first_failure() {
    let calls = std::cell::Cell::new(0);
    let mapped: Result<Vec<u32>, u32> = vec![1u32, 2, 3, 4].map_if_ok(|x| {
        calls.set(calls.get() + 1);
        if x == 2 {
            Err(x)
        } else {
            Ok(x)
        }
    });
    assert_eq!(mapped, Err(2));
    assert_eq!(calls.get(), 2);
}

fn paths(items: &[&str]) -> Vec<Vec<u8>> {
    items.iter().map(|s| s.as_bytes().to_vec()).collect()
}

#[test]
fn all_path_items_are_new_when_none_is_known() {
    assert_eq!(new_path_items(&Vec::new(), &paths(&["/a", "/b"])), vec![0, 1]);
}

#[test]
fn known_path_items_are_not_new() {
    let known = paths(&["/b", "/x"]);
    assert_eq!(new_path_items(&known, &paths(&["/a", "/b", "/c", "/x"])), vec![0, 2]);
}

#[test]
fn repeated_path_items_are_new_once() {
    let candidates = paths(&["/a", "/a", "/x", "/b", "/a", "/b"]);
    assert_eq!(new_path_items(&paths(&["/x"]), &candidates), vec![0, 3]);
}

#[test]
fn no_candidates_no_new_path_items() {
    assert_eq!(new_path_items(&paths(&["/x"]), &Vec::new()), Vec::<usize>::new());
}

#[test]
fn path_items_are_compared_byte_by_byte() {
    assert_eq!(new_path_items(&paths(&["/a"]), &paths(&["/a/", "/A", "", "/a"])), vec![0, 1, 2]);
    let known = vec![vec![0xffu8, 0x2f]];
    let candidates = vec![vec![0xffu8], vec![0xffu8, 0x2f], vec![0xfeu8, 0x2f]];
    assert_eq!(new_path_items(&known, &candidates), vec![0, 2]);
}

#[test]
fn output_of_a_successful_command_is_its_text() {
    assert_eq!(command_output(true, b"hello\n".to_vec()), Ok("hello\n".to_string()));
    assert_eq!(command_output(true, Vec::new()), Ok(String::new()));
    assert_eq!(command_output(true, vec![0xe2, 0x82, 0xac]), Ok("\u{20ac}".to_string()));
}

#[test]
fn output_of_a_failed_command_is_an_error() {
    assert_eq!(command_output(false, b"hello".to_vec()), Err(CommandError::Failed));
    assert_eq!(command_output(false, vec![0xff]), Err(CommandError::Failed));
}

#[test]
fn output_that_is_not_utf8_is_an_error() {
    assert_eq!(command_output(true, vec![0xff, 0xfe]), Err(CommandError::InvalidUnicode));
    assert_eq!(command_output(true, vec![0xe2, 0x82]), Err(CommandError::InvalidUnicode));
}

#[test]
fn progress_starts_at_zero() {
    let bar = ProgressBar::new(10, "Working".to_string());
    assert_eq!(bar.pos(), 0);
    assert_eq!(bar.count(), 10);
    assert_eq!(bar.line(), "Working: 0 / 10");
}

#[test]
fn progress_counts_steps() {
    let mut bar = ProgressBar::new(10, "Working".to_string());
    bar.add(3);
    bar.add(4);
    assert_eq!(bar.pos(), 7);
    assert_eq!(bar.line(), "Working: 7 / 10");
    bar.add(0);
    assert_eq!(bar.pos(), 7);
}

#[test]
fn progress_can_pass_the_count() {
    let mut bar = ProgressBar::new(2, "x".to_string());
    bar.add(u64::MAX);
    assert_eq!(bar.line(), "x: 18446744073709551615 / 2");
}

#[test]
fn first_print_has_nothing_to_clear() {
    let mut bar = ProgressBar::new(10, "Working".to_string());
    assert_eq!(bar.print(), "\r\rWorking: 0 / 10\r");
}

#[test]
fn later_print_clears_the_old_line() {
    let mut bar = ProgressBar::new(100, "ab".to_string());
    assert_eq!(bar.print(), "\r\rab: 0 / 100\r");
    bar.add(50);
    assert_eq!(bar.print(), format!("\r{}\rab: 50 / 100\r", " ".repeat(11)));
    assert_eq!(bar.print(), format!("\r{}\rab: 50 / 100\r", " ".repeat(12)));
}

#[test]
fn print_counts_the_line_in_bytes() {
    let mut bar = ProgressBar::new(1, "\u{e9}".to_string());
    assert_eq!(bar.print(), "\r\r\u{e9}: 0 / 1\r");
    assert_eq!(bar.print(), format!("\r{}\r\u{e9}: 0 / 1\r", " ".repeat(9)));
}
