use statusline::environment::kube_current_context;
use statusline::environment::non_blank;
use statusline::environment::normalize_aws_profile;
use statusline::environment::parse_git_status;
use statusline::environment::parse_i64;
use statusline::environment::trim_kube_context;

#[test]
fn kube_context_keeps_last_path_part() {
    assert_eq!(trim_kube_context("arn:aws:eks:us-east-1:123:cluster/prod"), "prod");
    assert_eq!(trim_kube_context("minikube"), "minikube");
    assert_eq!(trim_kube_context("a/b/"), "");
}

#[test]
fn kube_config_current_context_is_found() {
    let config = "apiVersion: v1\n# current-context: ignored\nclusters: []\ncurrent-context: team/dev-cluster\nkind: Config\n";
    assert_eq!(kube_current_context(config), Some("dev-cluster".to_string()));
    assert_eq!(kube_current_context("current-context:   \n"), None);
    assert_eq!(kube_current_context("  current-context: gke_x_y\r\n"), Some("gke_x_y".to_string()));
    assert_eq!(kube_current_context(""), None);
}

#[test]
fn git_porcelain_status_is_parsed() {
    let clean = "# branch.oid abc\n# branch.head main\n# branch.ab +2 -3\n";
    assert_eq!(parse_git_status(clean), (false, Some(2), Some(3)));
    let dirty = "# branch.head main\n1 .M N... 100644 100644 100644 a b file.rs\n";
    assert_eq!(parse_git_status(dirty), (true, None, None));
    assert_eq!(parse_git_status(""), (false, None, None));
}

#[test]
fn signed_numbers_parse_like_i64() {
    let chars = |s: &str| s.chars().collect::<Vec<char>>();
    assert_eq!(parse_i64(&chars("42")), Some(42));
    assert_eq!(parse_i64(&chars("-7")), Some(-7));
    assert_eq!(parse_i64(&chars("+7")), Some(7));
    assert_eq!(parse_i64(&chars("")), None);
    assert_eq!(parse_i64(&chars("-")), None);
    assert_eq!(parse_i64(&chars("4x")), None);
    assert_eq!(parse_i64(&chars("9223372036854775807")), Some(i64::MAX));
    assert_eq!(parse_i64(&chars("-9223372036854775808")), Some(i64::MIN));
    assert_eq!(parse_i64(&chars("9223372036854775808")), None);
}

#[test]
fn aws_profile_is_normalized() {
    assert_eq!(normalize_aws_profile("  export AWS_PROFILE=prod \n"), Some("prod".to_string()));
    assert_eq!(normalize_aws_profile("staging"), Some("staging".to_string()));
    assert_eq!(normalize_aws_profile("export AWS_PROFILE="), None);
    assert_eq!(non_blank(Some("  ".to_string())), None);
    assert_eq!(non_blank(Some("earth".to_string())), Some("earth".to_string()));
}
