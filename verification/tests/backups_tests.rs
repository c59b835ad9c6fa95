use espanso_manager::backups::{backup_name, backups_to_prune, damaged_settings_name, BACKUPS_KEPT};

fn files(list: &[(&str, Option<u128>)]) -> Vec<(String, Option<u128>)> {
    list.iter().map(|(n, t)| (n.to_string(), *t)).collect()
}

#[test]
fn backups_are_named_after_the_file_and_the_moment() {
    assert_eq!(backup_name("base.yml", 1_700_000_000), "base.yml.1700000000.bak");
    assert_eq!(damaged_settings_name(42), "settings.json.42.bad");
}

#[test]
fn nothing_is_pruned_while_there_is_room() {
    let some = files(&[("a", Some(3)), ("b", Some(1))]);
    assert!(backups_to_prune(&some, BACKUPS_KEPT).is_empty());
    assert!(backups_to_prune(&some, 2).is_empty());
}

#[test]
fn the_oldest_go_first_and_ties_keep_their_order() {
    let list = files(&[("new", Some(50)), ("unknown", None), ("old", Some(10)), ("tie1", Some(20)), ("tie2", Some(20))]);
    assert_eq!(backups_to_prune(&list, 2), vec!["unknown", "old", "tie1"]);
    assert_eq!(backups_to_prune(&list, 0), vec!["unknown", "old", "tie1", "tie2", "new"]);
}

#[test]
fn exactly_enough_are_pruned_to_leave_the_limit() {
    let list: Vec<(String, Option<u128>)> = (0..(BACKUPS_KEPT as u128 + 5)).rev().map(|i| (format!("b{i}"), Some(i))).collect();
    let gone = backups_to_prune(&list, BACKUPS_KEPT);
    assert_eq!(gone, vec!["b0", "b1", "b2", "b3", "b4"]);
}
