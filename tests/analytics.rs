use darkscout::analytics::{EmailStats, EmailStatsConverter};
use darkscout::palette::get_inbetween_colors;
use darkscout::records::{build_breach_info, BreachInfo, BreachName};

fn breach(name: &str, pwn_count: Option<u64>, is_sensitive: Option<bool>) -> BreachName {
    BreachName {
        name: name.to_string(),
        title: format!("{} title", name),
        description: format!("{} description", name),
        domain: Some(format!("{}.com", name.to_lowercase())),
        breach_date: Some("2019-01-01".to_string()),
        added_date: None,
        modified_date: None,
        pwn_count,
        data_classes: Some(vec!["Email addresses".to_string(), "Passwords".to_string()]),
        logo_path: format!("https://logos.example/{}.png", name),
        is_verified: Some(true),
        is_fabricated: Some(false),
        is_sensitive,
        is_retired: None,
        is_spamlist: Some(false),
        is_malicious_verified: None,
        is_subscription_free: Some(false),
    }
}

fn stats(records: Vec<(&str, Option<u64>, Option<bool>, &str)>) -> EmailStats {
    let names: Vec<BreachName> = records.iter().map(|r| breach(r.0, r.1, r.2)).collect();
    let codes: Vec<String> = records.iter().map(|r| r.3.to_string()).collect();
    EmailStats { breach_info: build_breach_info(names, codes) }
}

fn is_palette_color(c: &str) -> bool {
    (1..30usize).any(|k| get_inbetween_colors("#41445F", "#F9B759", 5 * k).iter().any(|x| x == c))
}

#[test]
fn build_breach_info_keeps_fields_and_order() {
    let infos: Vec<BreachInfo> = build_breach_info(
        vec![breach("Adobe", Some(152445165), Some(false)), breach("Canva", None, None)],
        vec!["US".to_string(), "AU".to_string()],
    );
    assert_eq!(infos.len(), 2);
    assert_eq!(infos[0].name, "Adobe");
    assert_eq!(infos[0].title, "Adobe title");
    assert_eq!(infos[0].domain, Some("adobe.com".to_string()));
    assert_eq!(infos[0].pwn_count, Some(152445165));
    assert_eq!(infos[0].data_classes, Some(vec!["Email addresses".to_string(), "Passwords".to_string()]));
    assert_eq!(infos[0].country_code, "US");
    assert_eq!(infos[1].name, "Canva");
    assert_eq!(infos[1].pwn_count, None);
    assert_eq!(infos[1].country_code, "AU");
}

#[test]
fn projector_shapes_for_three_records() {
    let s = stats(vec![
        ("Adobe", Some(100), Some(true), "US"),
        ("Canva", Some(20), Some(false), "AU"),
        ("Dropbox", None, Some(true), "US"),
    ]);
    let a = s.convert_to_email_analytics();
    assert_eq!(a.chart_data.data.len(), 3);
    assert_eq!(a.chart_data.fill_info.len(), 3);
    let styles: Vec<&str> = a.chart_data.fill_info.iter().map(|f| f.id.as_str()).collect();
    assert_eq!(styles, vec!["dots", "lines", "dots"]);
    assert_eq!(a.chart_data.fill_info[1].match_.id, "Canva");
    assert_eq!(a.geo_data.data.len(), 3);
    assert_eq!(a.bento_data.total_detected_breaches.value, "3");
    assert_eq!(a.radial_stack_data.data.len(), 3);
    assert_eq!(a.list_data.len(), 3);
}

#[test]
fn projector_on_no_records() {
    let s = EmailStats { breach_info: vec![] };
    let a = s.convert_to_email_analytics();
    assert!(a.chart_data.data.is_empty());
    assert!(a.chart_data.fill_info.is_empty());
    assert!(a.geo_data.data.is_empty());
    assert_eq!(a.bento_data.total_records.value, "0");
    assert_eq!(a.bento_data.total_detected_breaches.value, "0");
    assert_eq!(a.bento_data.total_sensitive_breaches.value, "0");
}

#[test]
fn pie_slices_carry_names_counts_and_palette_colors() {
    let s = stats(vec![("Adobe", Some(152445165), None, "US"), ("Canva", None, None, "AU")]);
    let a = s.convert_to_email_analytics();
    let d = &a.chart_data.data;
    assert_eq!(d[0].id, "Adobe");
    assert_eq!(d[0].label, "Adobe");
    assert_eq!(d[0].value, "152445165");
    assert_eq!(d[1].value, "0");
    assert!(d.iter().all(|e| is_palette_color(&e.color)));
}

#[test]
fn geo_entries_are_not_merged_by_country() {
    let s = stats(vec![
        ("Adobe", Some(5), None, "US"),
        ("Dropbox", Some(7), None, "US"),
        ("Canva", None, None, "AU"),
    ]);
    let g = s.create_geo_graph_data();
    let pairs: Vec<(&str, &str)> = g.data.iter().map(|e| (e.id.as_str(), e.value.as_str())).collect();
    assert_eq!(pairs, vec![("US", "5"), ("US", "7"), ("AU", "0")]);
}

#[test]
fn bento_summary_values() {
    let s = stats(vec![
        ("Adobe", Some(100), Some(true), "US"),
        ("Canva", Some(20), Some(false), "AU"),
        ("Dropbox", None, Some(true), "US"),
        ("Linkedin", Some(3), None, "US"),
    ]);
    let b = s.create_bento_data();
    assert_eq!(b.total_records.field_name, "Total Records");
    assert_eq!(b.total_records.value, "123");
    assert_eq!(b.total_records.increase_percentage, "100");
    assert_eq!(b.total_breaches.field_name, "Total Breaches");
    assert_eq!(b.total_breaches.value, "789");
    assert_eq!(b.total_sensitive_breaches.field_name, "Total Sensitive Breaches");
    assert_eq!(b.total_sensitive_breaches.value, "2");
    assert_eq!(b.total_detected_breaches.field_name, "Total Detected Breaches");
    assert_eq!(b.total_detected_breaches.value, "4");
}

#[test]
fn bento_total_does_not_overflow() {
    let s = stats(vec![("A", Some(u64::MAX), None, "US"), ("B", Some(u64::MAX), None, "US")]);
    let b = s.create_bento_data();
    assert_eq!(b.total_records.value, "36893488147419103230");
}

#[test]
fn radial_stack_elements() {
    let s = stats(vec![("Adobe", Some(9), None, "US"), ("Canva", None, None, "AU")]);
    let r = s.create_radial_stack_data();
    assert_eq!(r.config.total_found.label, "Total Found");
    assert_eq!(r.data.len(), 2);
    assert_eq!(r.data[0].leak_name, "Adobe");
    assert_eq!(r.data[0].visitors, 9);
    assert_eq!(r.data[1].leak_name, "Canva");
    assert_eq!(r.data[1].visitors, 0);
    assert!(r.data.iter().all(|e| is_palette_color(&e.fill)));
}

#[test]
fn list_data_copies_the_records() {
    let s = stats(vec![("Adobe", Some(9), Some(true), "US")]);
    let a = s.convert_to_email_analytics();
    assert_eq!(a.list_data[0].name, "Adobe");
    assert_eq!(a.list_data[0].pwn_count, Some(9));
    assert_eq!(a.list_data[0].is_sensitive, Some(true));
    assert_eq!(a.list_data[0].country_code, "US");
}
