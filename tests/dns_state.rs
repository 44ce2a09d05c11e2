use dns_switcher::classify::{classify, ProviderTable};
use dns_switcher::dns::{
    apply_outcome, dns_command_arguments, dns_from_command_output, extract_dns_configuration,
    parse_dns_output, ApplyError, QueryError,
};
use dns_switcher::state::{AppData, SwitchError};
use dns_switcher::types::{copy_list, lists_equal, AppState, DnsConfig, DnsType};
use dns_switcher::ui_components::NumberedListDelegate;

fn strings(v: &[&str]) -> Vec<String> {
    v.iter().map(|s| s.to_string()).collect()
}

fn config(servers: &[&str]) -> DnsConfig {
    DnsConfig { custom_dns: strings(servers), custom_dns_name: "Quad9".to_string() }
}

const SAMPLE: &str = "DNS configuration\n\nresolver #1\n  nameserver[0] : 1.1.1.1\n\nDNS configuration (for scoped queries)\n\nresolver #1\n  search domain[0] : lan\n  nameserver[0] : 192.168.1.1\n  nameserver[3] : 10.0.0.53\n  if_index : 14 (en0)\n";

#[test]
fn extract_returns_text_after_marker() {
    let out = extract_dns_configuration("head DNS configuration (for scoped queries)tail");
    assert_eq!(out, Some("tail".to_string()));
}

#[test]
fn extract_without_marker_is_none() {
    assert_eq!(extract_dns_configuration("DNS configuration\nnameserver[0] : 1.1.1.1"), None);
    assert_eq!(extract_dns_configuration(""), None);
}

#[test]
fn extract_uses_first_marker() {
    let m = "DNS configuration (for scoped queries)";
    let text = format!("a{m}b{m}c");
    assert_eq!(extract_dns_configuration(&text), Some(format!("b{m}c")));
}

#[test]
fn parse_yields_addresses_in_order_despite_index_gaps() {
    let r = parse_dns_output(SAMPLE).unwrap();
    assert_eq!(r, strings(&["192.168.1.1", "10.0.0.53"]));
}

#[test]
fn parse_ignores_entries_before_marker() {
    let r = parse_dns_output(SAMPLE).unwrap();
    assert!(!r.contains(&"1.1.1.1".to_string()));
}

#[test]
fn parse_with_marker_and_no_nameservers_is_empty_success() {
    let r = parse_dns_output("DNS configuration (for scoped queries)\n\nresolver #1\n").unwrap();
    assert!(r.is_empty());
}

#[test]
fn parse_without_marker_fails() {
    let r = parse_dns_output("DNS configuration\n  nameserver[0] : 8.8.8.8\n");
    assert!(matches!(r, Err(QueryError::MissingConfiguration)));
    assert!(matches!(parse_dns_output(""), Err(QueryError::MissingConfiguration)));
}

#[test]
fn command_failure_carries_stderr() {
    let r = dns_from_command_output(false, SAMPLE, "permission denied");
    match r {
        Err(QueryError::CommandFailed(e)) => assert_eq!(e, "permission denied"),
        _ => panic!("expected a command failure"),
    }
}

#[test]
fn command_success_parses_stdout() {
    let r = dns_from_command_output(true, SAMPLE, "").unwrap();
    assert_eq!(r, strings(&["192.168.1.1", "10.0.0.53"]));
}

#[test]
fn apply_empty_list_uses_sentinel() {
    let args = dns_command_arguments(&Vec::new());
    assert_eq!(args, strings(&["-setdnsservers", "Wi-Fi", "Empty"]));
}

#[test]
fn apply_list_keeps_order() {
    let args = dns_command_arguments(&strings(&["9.9.9.9", "149.112.112.112"]));
    assert_eq!(args, strings(&["-setdnsservers", "Wi-Fi", "9.9.9.9", "149.112.112.112"]));
}

#[test]
fn apply_outcome_follows_exit_status() {
    assert!(apply_outcome(true, "").is_ok());
    match apply_outcome(false, "no such service") {
        Err(ApplyError::CommandFailed(e)) => assert_eq!(e, "no such service"),
        _ => panic!("expected a command failure"),
    }
}

#[test]
fn builtin_table_lookups() {
    let t = ProviderTable::builtin();
    assert_eq!(t.lookup(DnsType::Google), Some(strings(&["8.8.8.8", "8.8.4.4"])));
    assert_eq!(t.lookup(DnsType::Unknown), None);
    assert_eq!(t.reverse_lookup(&strings(&["8.8.8.8", "8.8.4.4"])), Some(DnsType::Google));
    assert_eq!(t.reverse_lookup(&strings(&["8.8.4.4", "8.8.8.8"])), None);
    assert_eq!(ProviderTable::new().lookup(DnsType::Google), None);
}

#[test]
fn classify_known_provider() {
    let t = ProviderTable::builtin();
    let r = classify(&strings(&["8.8.8.8", "8.8.4.4"]), &config(&["9.9.9.9"]), &t);
    assert_eq!(r, DnsType::Google);
}

#[test]
fn classify_is_order_sensitive() {
    let t = ProviderTable::builtin();
    let c = config(&["9.9.9.9", "1.1.1.1"]);
    assert_eq!(classify(&strings(&["8.8.4.4", "8.8.8.8"]), &c, &t), DnsType::Unknown);
    assert_eq!(classify(&strings(&["9.9.9.9", "1.1.1.1"]), &c, &t), DnsType::Custom);
    assert_eq!(classify(&strings(&["1.1.1.1", "9.9.9.9"]), &c, &t), DnsType::Unknown);
}

#[test]
fn classify_custom_takes_precedence() {
    let t = ProviderTable::builtin();
    let c = config(&["8.8.8.8", "8.8.4.4"]);
    assert_eq!(classify(&strings(&["8.8.8.8", "8.8.4.4"]), &c, &t), DnsType::Custom);
}

#[test]
fn classify_empty_list_is_unknown() {
    let t = ProviderTable::builtin();
    assert_eq!(classify(&Vec::new(), &config(&["9.9.9.9"]), &t), DnsType::Unknown);
}

#[test]
fn new_state_is_loading() {
    let d = AppData::new(config(&["9.9.9.9"]), ProviderTable::builtin());
    assert_eq!(d.app_state(), AppState::Loading);
    assert!(d.dns_list().is_empty());
    assert_eq!(d.dns_type(), DnsType::Unknown);
    assert_eq!(d.custom_dns_name(), "Quad9");
    assert_eq!(d.generation(), 0);
}

#[test]
fn refresh_with_google_servers_is_known_provider() {
    let mut d = AppData::new(config(&["9.9.9.9"]), ProviderTable::builtin());
    let g = d.start_loading_dns();
    assert_eq!(d.app_state(), AppState::Loading);
    assert!(d.finish_loading_dns(g, Ok(strings(&["8.8.8.8", "8.8.4.4"]))).is_some());
    assert_eq!(d.app_state(), AppState::Success);
    assert_eq!(d.dns_type(), DnsType::Google);
    assert_eq!(d.dns_list(), &strings(&["8.8.8.8", "8.8.4.4"]));
}

#[test]
fn switch_to_custom_then_refresh_is_custom() {
    let mut d = AppData::new(config(&["9.9.9.9"]), ProviderTable::builtin());
    let servers = d.set_dns_type(&DnsType::Custom).unwrap();
    assert_eq!(servers, strings(&["9.9.9.9"]));
    let g = d.finish_apply(Ok(())).unwrap();
    assert_eq!(d.app_state(), AppState::Loading);
    d.finish_loading_dns(g, Ok(strings(&["9.9.9.9"])));
    assert_eq!(d.app_state(), AppState::Success);
    assert_eq!(d.dns_type(), DnsType::Custom);
}

#[test]
fn switch_to_provider_applies_its_servers() {
    let mut d = AppData::new(config(&["9.9.9.9"]), ProviderTable::builtin());
    let servers = d.set_dns_type(&DnsType::Google).unwrap();
    assert_eq!(servers, strings(&["8.8.8.8", "8.8.4.4"]));
}

#[test]
fn switch_to_unknown_is_refused() {
    let mut d = AppData::new(config(&["9.9.9.9"]), ProviderTable::builtin());
    let g = d.generation();
    assert_eq!(d.set_dns_type(&DnsType::Unknown).unwrap_err(), SwitchError::UnknownProvider);
    assert_eq!(d.generation(), g);
    let mut e = AppData::new(config(&["9.9.9.9"]), ProviderTable::new());
    assert_eq!(e.set_dns_type(&DnsType::Google).unwrap_err(), SwitchError::UnknownProvider);
}

#[test]
fn clear_then_empty_query_is_unknown_success() {
    let mut d = AppData::new(config(&["9.9.9.9"]), ProviderTable::builtin());
    let servers = d.clear_dns();
    assert!(servers.is_empty());
    assert_eq!(dns_command_arguments(&servers), strings(&["-setdnsservers", "Wi-Fi", "Empty"]));
    let g = d.finish_apply(Ok(())).unwrap();
    d.finish_loading_dns(g, Ok(Vec::new()));
    assert_eq!(d.app_state(), AppState::Success);
    assert_eq!(d.dns_type(), DnsType::Unknown);
    assert!(d.dns_list().is_empty());
}

#[test]
fn query_failure_shows_error_and_nothing_else() {
    let mut d = AppData::new(config(&["9.9.9.9"]), ProviderTable::builtin());
    let g = d.start_loading_dns();
    d.finish_loading_dns(g, Ok(strings(&["8.8.8.8", "8.8.4.4"])));
    let g = d.start_loading_dns();
    assert!(d.dns_list().is_empty());
    let failed = dns_from_command_output(false, "", "exit 1");
    d.finish_loading_dns(g, failed);
    assert_eq!(d.app_state(), AppState::Error);
    assert!(d.dns_list().is_empty());
    assert_eq!(d.dns_type(), DnsType::Unknown);
}

#[test]
fn apply_failure_shows_error_without_refresh() {
    let mut d = AppData::new(config(&["9.9.9.9"]), ProviderTable::builtin());
    let g = d.start_loading_dns();
    d.finish_loading_dns(g, Ok(strings(&["8.8.8.8", "8.8.4.4"])));
    d.set_dns_type(&DnsType::Custom).unwrap();
    let gen_before = d.generation();
    assert_eq!(d.finish_apply(apply_outcome(false, "denied")), None);
    assert_eq!(d.app_state(), AppState::Error);
    assert_eq!(d.dns_list(), &strings(&["8.8.8.8", "8.8.4.4"]));
    assert_eq!(d.dns_type(), DnsType::Google);
    assert_eq!(d.generation(), gen_before);
}

#[test]
fn clear_failure_keeps_shown_servers() {
    let mut d = AppData::new(config(&["9.9.9.9"]), ProviderTable::builtin());
    let g = d.start_loading_dns();
    d.finish_loading_dns(g, Ok(strings(&["9.9.9.9"])));
    d.clear_dns();
    assert_eq!(d.finish_apply(apply_outcome(false, "denied")), None);
    assert_eq!(d.app_state(), AppState::Error);
    assert_eq!(d.dns_list(), &strings(&["9.9.9.9"]));
    assert_eq!(d.dns_type(), DnsType::Custom);
}

#[test]
fn switch_keeps_shown_servers_until_apply_outcome() {
    let mut d = AppData::new(config(&["9.9.9.9"]), ProviderTable::builtin());
    let g = d.start_loading_dns();
    d.finish_loading_dns(g, Ok(strings(&["8.8.8.8", "8.8.4.4"])));
    d.set_dns_type(&DnsType::Custom).unwrap();
    assert_eq!(d.app_state(), AppState::Success);
    assert_eq!(d.dns_type(), DnsType::Google);
    assert_eq!(d.generation(), g + 1);
    assert!(d.finish_loading_dns(g, Ok(strings(&["1.1.1.1"]))).is_none());
    assert_eq!(d.dns_list(), &strings(&["8.8.8.8", "8.8.4.4"]));
}

#[test]
fn stale_query_result_is_discarded() {
    let mut d = AppData::new(config(&["9.9.9.9"]), ProviderTable::builtin());
    let old = d.start_loading_dns();
    let new = d.start_loading_dns();
    assert_ne!(old, new);
    assert!(d.finish_loading_dns(old, Ok(strings(&["1.1.1.1"]))).is_none());
    assert_eq!(d.app_state(), AppState::Loading);
    assert!(d.dns_list().is_empty());
    assert!(d.finish_loading_dns(new, Ok(strings(&["9.9.9.9"]))).is_some());
    assert_eq!(d.dns_type(), DnsType::Custom);
}

#[test]
fn list_delegate_rows() {
    let l = NumberedListDelegate { items: strings(&["8.8.8.8", "8.8.4.4"]), is_loading: true };
    assert_eq!(l.items_count(), 2);
    assert!(l.loading());
    assert_eq!(l.item(1), Some(&"8.8.4.4".to_string()));
    assert_eq!(l.item(2), None);
}

#[test]
fn list_helpers() {
    let a = strings(&["1.1.1.1", "1.0.0.1"]);
    assert!(lists_equal(&a, &copy_list(&a)));
    assert!(!lists_equal(&a, &strings(&["1.0.0.1", "1.1.1.1"])));
    assert!(!lists_equal(&a, &strings(&["1.1.1.1"])));
}
