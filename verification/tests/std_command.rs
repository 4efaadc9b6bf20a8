use console_window::{Platform, StdCommand, StdCommandExt, CREATE_NO_WINDOW};

fn strings(items: &[&str]) -> Vec<String> {
    items.iter().map(|s| s.to_string()).collect()
}

#[test]
fn std_new_builder_is_empty() {
    let cmd = StdCommand::new(Platform::Windows, "git");
    assert_eq!(cmd.get_platform(), Platform::Windows);
    assert_eq!(cmd.get_program(), "git");
    assert!(cmd.get_args().is_empty());
    assert_eq!(cmd.get_creation_flags(), 0);
}

#[test]
fn std_windows_empty_mask() {
    let mut cmd = StdCommand::new(Platform::Windows, "git");
    cmd.hide_console_window();
    assert_eq!(cmd.get_creation_flags(), 0x08000000);
}

#[test]
fn std_windows_process_group_mask() {
    let mut cmd = StdCommand::new(Platform::Windows, "git");
    cmd.creation_flags(0x00000200);
    cmd.hide_console_window();
    assert_eq!(cmd.get_creation_flags(), 0x08000200);
}

#[test]
fn std_windows_mask_already_hidden() {
    let mut cmd = StdCommand::new(Platform::Windows, "git");
    cmd.creation_flags(0x08000000);
    cmd.hide_console_window();
    assert_eq!(cmd.get_creation_flags(), 0x08000000);
}

#[test]
fn std_other_platform_builder_is_unchanged() {
    let mut hidden = StdCommand::new(Platform::Other, "/bin/echo");
    hidden.arg("hello");
    hidden.hide_console_window();

    let mut plain = StdCommand::new(Platform::Other, "/bin/echo");
    plain.arg("hello");

    assert_eq!(hidden, plain);
    assert_eq!(hidden.get_program(), "/bin/echo");
    assert_eq!(hidden.get_args(), &strings(&["hello"]));
    assert_eq!(hidden.get_creation_flags(), 0);
}

#[test]
fn std_other_platform_keeps_a_mask_it_was_given() {
    let mut cmd = StdCommand::new(Platform::Other, "true");
    cmd.creation_flags(0x00000200);
    cmd.hide_console_window();
    assert_eq!(cmd.get_creation_flags(), 0x00000200);
}

#[test]
fn std_windows_touches_only_the_mask() {
    let mut cmd = StdCommand::new(Platform::Windows, "git");
    cmd.arg("status").arg("--short");
    cmd.hide_console_window();
    assert_eq!(cmd.get_platform(), Platform::Windows);
    assert_eq!(cmd.get_program(), "git");
    assert_eq!(cmd.get_args(), &strings(&["status", "--short"]));
}

#[test]
fn std_fluent_chaining() {
    let mut cmd = StdCommand::new(Platform::Windows, "tool");
    cmd.arg("a").hide_console_window().arg("b");
    assert_eq!(cmd.get_args(), &strings(&["a", "b"]));
    assert_eq!(cmd.get_creation_flags() & 0x08000000, 0x08000000);
}

#[test]
fn std_returned_reference_is_the_builder() {
    let mut cmd = StdCommand::new(Platform::Windows, "tool");
    {
        let same = cmd.hide_console_window();
        assert_eq!(same.get_creation_flags(), CREATE_NO_WINDOW);
        same.creation_flags(0x00000010);
    }
    assert_eq!(cmd.get_creation_flags(), 0x00000010);

    let mut other = StdCommand::new(Platform::Other, "tool");
    other.hide_console_window().arg("x");
    assert_eq!(other.get_args(), &strings(&["x"]));
}

#[test]
fn std_hiding_twice_is_hiding_once() {
    for platform in [Platform::Windows, Platform::Other] {
        for mask in [0u32, 0x200, 0x08000000, u32::MAX] {
            let mut once = StdCommand::new(platform, "git");
            once.arg("fetch").creation_flags(mask);
            once.hide_console_window();

            let mut twice = StdCommand::new(platform, "git");
            twice.arg("fetch").creation_flags(mask);
            twice.hide_console_window().hide_console_window();

            assert_eq!(once, twice);
        }
    }
}

#[test]
fn std_flags_set_before_stay_set() {
    let before = 0x00000200 | 0x00000008 | 0x00000010;
    let mut cmd = StdCommand::new(Platform::Windows, "git");
    cmd.creation_flags(before);
    cmd.hide_console_window();
    let after = cmd.get_creation_flags();
    for flag in [0x00000200u32, 0x00000008, 0x00000010] {
        assert_eq!(after & flag, flag);
    }
    assert_eq!(after, before | 0x08000000);
}

#[test]
fn std_hiding_commutes_with_adding_an_argument() {
    let mut first = StdCommand::new(Platform::Windows, "git");
    first.hide_console_window().arg("log");
    let mut second = StdCommand::new(Platform::Windows, "git");
    second.arg("log").hide_console_window();
    assert_eq!(first, second);
}

#[test]
fn std_assigning_the_mask_afterwards_drops_the_flag() {
    let mut cmd = StdCommand::new(Platform::Windows, "git");
    cmd.hide_console_window().creation_flags(0x00000200);
    assert_eq!(cmd.get_creation_flags(), 0x00000200);
    assert_eq!(cmd.get_creation_flags() & CREATE_NO_WINDOW, 0);
}

#[test]
fn std_setter_replaces_the_mask() {
    let mut cmd = StdCommand::new(Platform::Windows, "git");
    cmd.creation_flags(0x00000200).creation_flags(0x00000008);
    assert_eq!(cmd.get_creation_flags(), 0x00000008);
}

#[test]
fn std_arguments_keep_their_order() {
    let mut cmd = StdCommand::new(Platform::Other, "printf");
    cmd.arg("%s %s").arg("").arg("b").arg("a");
    assert_eq!(cmd.get_args(), &strings(&["%s %s", "", "b", "a"]));
}
