use webshell::instance::resolve_instance_dir;

fn strings(items: &[&str]) -> Vec<String> {
    items.iter().map(|s| s.to_string()).collect()
}

#[test]
fn explicit_dir_wins_over_profile() {
    let args = strings(&["--user-data-dir=/tmp/custom", "--profile=foo"]);
    let dir = resolve_instance_dir(&args, &strings(&[]));
    assert_eq!(dir, "/tmp/custom");
}

#[test]
fn explicit_dir_wins_regardless_of_order() {
    let args = strings(&["--profile=foo", "--user-data-dir=/tmp/custom"]);
    let dir = resolve_instance_dir(&args, &strings(&[]));
    assert_eq!(dir, "/tmp/custom");
}

#[test]
fn profile_resolves_under_data() {
    let args = strings(&["--profile=foo"]);
    let dir = resolve_instance_dir(&args, &strings(&[]));
    assert_eq!(dir, "data/foo");
}

#[test]
fn auto_numbering_takes_one_past_the_highest() {
    let entries = strings(&["instance-1", "instance-3"]);
    let dir = resolve_instance_dir(&strings(&[]), &entries);
    assert_eq!(dir, "data/instance-4");
}

#[test]
fn no_entries_starts_at_one() {
    let dir = resolve_instance_dir(&strings(&[]), &strings(&[]));
    assert_eq!(dir, "data/instance-1");
}

#[test]
fn unrelated_entries_are_ignored() {
    let entries = strings(&["instance-abc", "cache", "instance-", "instance-2", "profile-9"]);
    let dir = resolve_instance_dir(&strings(&[]), &entries);
    assert_eq!(dir, "data/instance-3");
}

#[test]
fn oversized_numbers_are_ignored() {
    let entries = strings(&["instance-99999999999999999999999", "instance-7"]);
    let dir = resolve_instance_dir(&strings(&[]), &entries);
    assert_eq!(dir, "data/instance-8");
}
