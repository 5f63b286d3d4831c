use ax::ax::app::{
    choose_app_target, list_running_apps, plan_element_target, select_app_pid, sort_apps,
    text_less, AppInfo, AppTarget, ElementTarget, RunningApp,
};
use ax::cli::TargetArgs;
use ax::error::AxError;

fn app(name: &str, pid: i32) -> AppInfo {
    AppInfo { pid, name: name.to_string(), bundle_id: format!("b.{}", pid) }
}

#[test]
fn sort_is_by_lowercased_name_and_stable() {
    let apps = vec![app("safari", 3), app("Finder", 1), app("Safari", 2), app("calculator", 4)];
    let sorted = sort_apps(apps);
    let order: Vec<i32> = sorted.iter().map(|a| a.pid).collect();
    assert_eq!(order, vec![4, 1, 3, 2]);
}

#[test]
fn sort_matches_std_stable_sort() {
    let names = ["Zed", "alpha", "Beta", "ALPHA", "beta", "Ämter", "z", ""];
    let apps: Vec<AppInfo> = names.iter().enumerate().map(|(i, n)| app(n, i as i32)).collect();
    let mut expected = apps.clone();
    expected.sort_by(|a, b| a.name.to_lowercase().cmp(&b.name.to_lowercase()));
    assert_eq!(sort_apps(apps), expected);
}

#[test]
fn text_order_is_by_character() {
    assert!(text_less("a", "b"));
    assert!(text_less("ab", "abc"));
    assert!(!text_less("abc", "ab"));
    assert!(!text_less("a", "a"));
    assert!(text_less("z", "é"));
}

#[test]
fn listing_leaves_out_background_unnamed_and_invalid() {
    let found = vec![
        RunningApp { pid: 10, name: Some("Mail".to_string()), bundle_id: "m".to_string(), activation_policy: 0 },
        RunningApp { pid: 11, name: Some("agent".to_string()), bundle_id: "a".to_string(), activation_policy: 2 },
        RunningApp { pid: 12, name: None, bundle_id: "n".to_string(), activation_policy: 0 },
        RunningApp { pid: 0, name: Some("kernel".to_string()), bundle_id: String::new(), activation_policy: 0 },
        RunningApp { pid: 13, name: Some("bar".to_string()), bundle_id: String::new(), activation_policy: 1 },
    ];
    let listed = list_running_apps(&found);
    assert_eq!(
        listed,
        vec![
            AppInfo { pid: 13, name: "bar".to_string(), bundle_id: String::new() },
            AppInfo { pid: 10, name: "Mail".to_string(), bundle_id: "m".to_string() },
        ]
    );
}

#[test]
fn exact_name_wins_over_substring() {
    let apps = vec![app("Safari Technology Preview", 1), app("Safari", 2)];
    assert_eq!(select_app_pid(&apps, "safari"), Ok(2));
}

#[test]
fn unique_substring_is_chosen() {
    let apps = vec![app("Finder", 1), app("Safari", 2)];
    assert_eq!(select_app_pid(&apps, "FIND"), Ok(1));
}

#[test]
fn no_match_lists_available_apps() {
    let apps = vec![app("Finder", 1), app("Safari", 2)];
    assert_eq!(
        select_app_pid(&apps, "Mail"),
        Err(AxError::AppNotFound("'Mail'. Available apps: Finder, Safari".to_string()))
    );
}

#[test]
fn ambiguous_match_lists_candidates() {
    let apps = vec![app("Notes", 5), app("Notes Helper", 6), app("Mail", 7)];
    assert_eq!(
        select_app_pid(&apps, "note"),
        Err(AxError::AppNotFound(
            "'note' is ambiguous. Matches: Notes (pid: 5), Notes Helper (pid: 6)".to_string()
        ))
    );
}

#[test]
fn app_target_pid_wins() {
    assert_eq!(choose_app_target(Some("Finder"), Some(42)), Ok(AppTarget::Pid(42)));
    assert_eq!(choose_app_target(Some("Finder"), None), Ok(AppTarget::Name("Finder".to_string())));
    assert_eq!(
        choose_app_target(None, None),
        Err(AxError::InvalidArgument("Either --app or --pid must be specified".to_string()))
    );
}

#[test]
fn element_target_plans() {
    let t = TargetArgs { app: Some("Safari".to_string()), pid: None };
    assert_eq!(
        plan_element_target(&t, true, Some("5,6")),
        Ok(ElementTarget::AtPoint("5,6".to_string()))
    );
    assert_eq!(
        plan_element_target(&t, true, None),
        Ok(ElementTarget::Focused(AppTarget::Name("Safari".to_string())))
    );
    let t = TargetArgs { app: None, pid: Some(9) };
    assert_eq!(plan_element_target(&t, false, None), Ok(ElementTarget::App(AppTarget::Pid(9))));
    let t = TargetArgs { app: None, pid: None };
    assert_eq!(
        plan_element_target(&t, true, None),
        Err(AxError::InvalidArgument("Either --app or --pid must be specified".to_string()))
    );
}
