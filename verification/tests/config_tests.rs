use singbox_manager::cli::{plan_round, round_failure, wait_between_rounds, RoundTask};
use singbox_manager::interactive::{
    chosen_entry, confirmed, main_menu_entry, read_number, subscription_menu_entry,
    InteractiveCLI, MainMenuEntry, SubscriptionMenuEntry, MAIN_MENU_ENTRIES,
};
use singbox_manager::subscription::SubscriptionManager;
use singbox_manager::types::{Config, MihomoCoreUpdate, SingboxCoreUpdate, Subscription};
use singbox_manager::download::{DownloadError, DownloadReply};

fn strings(items: &[&str]) -> Vec<String> {
    items.iter().map(|s| s.to_string()).collect()
}

#[test]
fn default_config_on_unix() {
    let config = Config::default(false);
    assert_eq!(config.subscriptions.len(), 1);
    assert_eq!(config.subscriptions[0].name, "默认订阅");
    assert_eq!(config.subscriptions[0].url, "https://example.com/your-singbox-config.json");
    assert_eq!(config.subscriptions[0].save_path, "./singbox_config.json");
    assert_eq!(config.update_interval_hours, 24);
    assert!(config.singbox_core_update.enabled);
    assert!(!config.singbox_core_update.check_prerelease);
    assert_eq!(config.singbox_core_update.install_path, "/usr/local/bin/sing-box");
    let mihomo = config.mihomo_core_update.unwrap();
    assert!(!mihomo.enabled);
    assert!(!mihomo.check_prerelease);
    assert_eq!(mihomo.install_paths, strings(&["/usr/local/bin/mihomo"]));
}

#[test]
fn default_config_on_windows() {
    let config = Config::default(true);
    assert_eq!(
        config.singbox_core_update.install_path,
        "C:\\Program Files\\sing-box\\sing-box.exe"
    );
    assert_eq!(
        config.mihomo_core_update.unwrap().install_paths,
        strings(&["C:\\Program Files\\mihomo\\mihomo.exe"])
    );
    assert_eq!(config.update_interval_hours, 24);
}

#[test]
fn clone_keeps_everything() {
    let mut config = Config::default(false);
    config.add_subscription("b".to_string(), "u".to_string(), "p".to_string());
    let copy = config.clone();
    assert_eq!(copy.subscriptions.len(), 2);
    assert_eq!(copy.subscriptions[1].name, "b");
    assert_eq!(copy.subscriptions[1].url, "u");
    assert_eq!(copy.subscriptions[1].save_path, "p");
    assert_eq!(copy.update_interval_hours, 24);
    assert_eq!(copy.singbox_core_update.install_path, "/usr/local/bin/sing-box");
    assert_eq!(copy.mihomo_core_update.unwrap().install_paths, strings(&["/usr/local/bin/mihomo"]));
}

#[test]
fn added_subscription_gets_the_default_path_when_none_is_given() {
    let mut config = Config::default(false);
    config.add_subscription("mine".to_string(), "https://a.example/s".to_string(), String::new());
    config.add_subscription("other".to_string(), "https://b.example/s".to_string(), "/etc/s.json".to_string());
    assert_eq!(config.subscriptions.len(), 3);
    assert_eq!(config.subscriptions[1].name, "mine");
    assert_eq!(config.subscriptions[1].url, "https://a.example/s");
    assert_eq!(config.subscriptions[1].save_path, "./singbox_config.json");
    assert_eq!(config.subscriptions[2].save_path, "/etc/s.json");
    assert_eq!(config.subscriptions[0].name, "默认订阅");
}

#[test]
fn edited_subscription_keeps_what_was_left_empty() {
    let mut config = Config::default(false);
    config.add_subscription("second".to_string(), "https://b".to_string(), "/b".to_string());
    config.edit_subscription(0, "renamed".to_string(), String::new(), String::new());
    assert_eq!(config.subscriptions[0].name, "renamed");
    assert_eq!(config.subscriptions[0].url, "https://example.com/your-singbox-config.json");
    assert_eq!(config.subscriptions[0].save_path, "./singbox_config.json");
    config.edit_subscription(1, String::new(), "https://c".to_string(), "/c".to_string());
    assert_eq!(config.subscriptions[1].name, "second");
    assert_eq!(config.subscriptions[1].url, "https://c");
    assert_eq!(config.subscriptions[1].save_path, "/c");
    assert_eq!(config.subscriptions.len(), 2);
}

#[test]
fn removed_subscription_moves_the_rest_up() {
    let mut config = Config::default(false);
    config.add_subscription("b".to_string(), "ub".to_string(), "pb".to_string());
    config.add_subscription("c".to_string(), "uc".to_string(), "pc".to_string());
    config.remove_subscription(1);
    assert_eq!(config.subscriptions.len(), 2);
    assert_eq!(config.subscriptions[0].name, "默认订阅");
    assert_eq!(config.subscriptions[1].name, "c");
    config.remove_subscription(0);
    config.remove_subscription(0);
    assert!(config.subscriptions.is_empty());
}

#[test]
fn singbox_settings_after_a_dialogue() {
    let current = SingboxCoreUpdate {
        enabled: true,
        check_prerelease: false,
        install_path: "/usr/local/bin/sing-box".to_string(),
    };
    let kept = current.reconfigured(false, true, String::new());
    assert!(!kept.enabled);
    assert!(kept.check_prerelease);
    assert_eq!(kept.install_path, "/usr/local/bin/sing-box");
    let moved = current.reconfigured(true, false, "/opt/sing-box".to_string());
    assert_eq!(moved.install_path, "/opt/sing-box");
}

#[test]
fn mihomo_settings_where_none_are_configured() {
    let settings = MihomoCoreUpdate::unconfigured();
    assert!(!settings.enabled);
    assert!(!settings.check_prerelease);
    assert_eq!(settings.install_paths, strings(&["/usr/local/bin/mihomo"]));
}

#[test]
fn mihomo_paths_can_be_added_and_removed() {
    let mut settings = MihomoCoreUpdate::unconfigured();
    assert!(settings.add_install_path("/opt/mihomo".to_string()));
    assert!(!settings.add_install_path(String::new()));
    assert_eq!(settings.install_paths, strings(&["/usr/local/bin/mihomo", "/opt/mihomo"]));
    settings.remove_install_path(0);
    assert_eq!(settings.install_paths, strings(&["/opt/mihomo"]));
    assert!(!settings.settle_install_paths());
    assert_eq!(settings.install_paths, strings(&["/opt/mihomo"]));
    settings.remove_install_path(0);
    assert!(settings.install_paths.is_empty());
    assert!(settings.settle_install_paths());
    assert_eq!(settings.install_paths, strings(&["/usr/local/bin/mihomo"]));
}

#[test]
fn answers_to_yes_or_no() {
    for default in [true, false] {
        assert!(confirmed("y", default));
        assert!(confirmed("yes", default));
        assert!(!confirmed("n", default));
        assert!(!confirmed("no", default));
        assert_eq!(confirmed("", default), default);
        assert_eq!(confirmed("maybe", default), default);
        assert_eq!(confirmed("Y", default), default);
        assert_eq!(confirmed("ye", default), default);
        assert_eq!(confirmed("yes ", default), default);
    }
}

#[test]
fn menu_numbers_count_from_one() {
    assert_eq!(chosen_entry("0", 8), None);
    assert_eq!(chosen_entry("1", 8), Some(0));
    assert_eq!(chosen_entry("8", 8), Some(7));
    assert_eq!(chosen_entry("9", 8), None);
    assert_eq!(chosen_entry("1", 0), None);
    assert_eq!(chosen_entry("+3", 8), Some(2));
    assert_eq!(chosen_entry("003", 8), Some(2));
    assert_eq!(chosen_entry("", 8), None);
    assert_eq!(chosen_entry("three", 8), None);
    assert_eq!(chosen_entry("-1", 8), None);
    assert_eq!(chosen_entry("1.0", 8), None);
    assert_eq!(chosen_entry("99999999999999999999999", 8), None);
    assert_eq!(
        chosen_entry("18446744073709551615", usize::MAX),
        "18446744073709551615".parse::<usize>().ok().map(|n| n - 1)
    );
}

#[test]
fn numbers_are_read_as_the_standard_library_reads_them() {
    let inputs = [
        "0", "7", "24", "+24", "0024", "18446744073709551615", "18446744073709551616",
        "184467440737095516150", "", "+", "-", "-0", "++1", "1+", " 1", "1 ", "1_000", "0x10",
        "١٢", "12a", "a12", "+0", "99999999999999999999", "00000000000000000000000001",
    ];
    for input in inputs {
        assert_eq!(read_number(input), input.parse::<u64>().ok(), "input {:?}", input);
    }
}

#[test]
fn main_menu_entries_in_order() {
    assert_eq!(MAIN_MENU_ENTRIES, 8);
    assert_eq!(main_menu_entry(0), Some(MainMenuEntry::ShowConfig));
    assert_eq!(main_menu_entry(1), Some(MainMenuEntry::ManageSubscriptions));
    assert_eq!(main_menu_entry(2), Some(MainMenuEntry::UpdateSubscriptions));
    assert_eq!(main_menu_entry(3), Some(MainMenuEntry::UpdateSingboxCore));
    assert_eq!(main_menu_entry(4), Some(MainMenuEntry::UpdateMihomoCore));
    assert_eq!(main_menu_entry(5), Some(MainMenuEntry::RunAllUpdates));
    assert_eq!(main_menu_entry(6), Some(MainMenuEntry::Settings));
    assert_eq!(main_menu_entry(7), Some(MainMenuEntry::Quit));
    assert_eq!(main_menu_entry(8), None);
}

#[test]
fn subscription_menu_lists_subscriptions_then_add_then_back() {
    assert_eq!(subscription_menu_entry(0, 2), Some(SubscriptionMenuEntry::Edit(0)));
    assert_eq!(subscription_menu_entry(1, 2), Some(SubscriptionMenuEntry::Edit(1)));
    assert_eq!(subscription_menu_entry(2, 2), Some(SubscriptionMenuEntry::Add));
    assert_eq!(subscription_menu_entry(3, 2), Some(SubscriptionMenuEntry::Back));
    assert_eq!(subscription_menu_entry(4, 2), None);
    assert_eq!(subscription_menu_entry(0, 0), Some(SubscriptionMenuEntry::Add));
    assert_eq!(subscription_menu_entry(1, 0), Some(SubscriptionMenuEntry::Back));
    assert_eq!(subscription_menu_entry(usize::MAX, usize::MAX), Some(SubscriptionMenuEntry::Add));
}

#[test]
fn interactive_front_end_keeps_its_config_path() {
    let cli = InteractiveCLI::new("config.json".to_string());
    assert_eq!(cli.config_path, "config.json");
}

#[test]
fn waits_one_interval_between_rounds() {
    assert_eq!(wait_between_rounds(false, 24), Some(86400));
    assert_eq!(wait_between_rounds(false, 1), Some(3600));
    assert_eq!(wait_between_rounds(false, 0), None);
    assert_eq!(wait_between_rounds(true, 24), None);
    assert_eq!(wait_between_rounds(true, 0), None);
    assert_eq!(wait_between_rounds(true, u64::MAX), None);
    assert_eq!(wait_between_rounds(false, u64::MAX / 3600), Some(u64::MAX / 3600 * 3600));
}

#[test]
fn subscription_is_saved_at_its_path() {
    let sub = Subscription {
        name: "mine".to_string(),
        url: "https://a.example/s".to_string(),
        save_path: "/etc/sing-box/config.json".to_string(),
    };
    let manager = SubscriptionManager::new();
    let reply = DownloadReply::Answered { status: 200, body: Some(b"{\"a\":1}".to_vec()) };
    let saved = manager.download_subscription(&sub, reply).unwrap();
    assert_eq!(saved.path, "/etc/sing-box/config.json");
    assert_eq!(saved.content, b"{\"a\":1}");
}

#[test]
fn subscription_download_failures() {
    let sub = Subscription { name: "n".to_string(), url: "u".to_string(), save_path: "p".to_string() };
    let manager = SubscriptionManager::new();
    assert_eq!(
        manager.download_subscription(&sub, DownloadReply::Unreachable).err(),
        Some(DownloadError::Unreachable)
    );
    let denied = DownloadReply::Answered { status: 403, body: Some(b"denied".to_vec()) };
    assert_eq!(manager.download_subscription(&sub, denied).err(), Some(DownloadError::BadStatus));
    let cut = DownloadReply::Answered { status: 200, body: None };
    assert_eq!(manager.download_subscription(&sub, cut).err(), Some(DownloadError::Unreachable));
}

#[test]
fn a_round_goes_through_subscriptions_core_and_alternative_core() {
    let mut config = Config::default(false);
    assert_eq!(
        plan_round(&config),
        vec![RoundTask::Subscriptions, RoundTask::Singbox, RoundTask::Mihomo]
    );
    config.singbox_core_update.enabled = false;
    config.subscriptions.clear();
    assert_eq!(
        plan_round(&config),
        vec![RoundTask::Subscriptions, RoundTask::Singbox, RoundTask::Mihomo]
    );
    config.mihomo_core_update = None;
    assert_eq!(plan_round(&config), vec![RoundTask::Subscriptions, RoundTask::Singbox]);
}

#[test]
fn a_round_fails_with_its_first_failed_task() {
    assert_eq!(round_failure(&vec![false, false, false]), None);
    assert_eq!(round_failure(&vec![false, true, false]), Some(1));
    assert_eq!(round_failure(&vec![false, true, true]), Some(1));
    assert_eq!(round_failure(&vec![true, true, true]), Some(0));
    assert_eq!(round_failure(&vec![false, false, true]), Some(2));
    assert_eq!(round_failure(&Vec::new()), None);
}
