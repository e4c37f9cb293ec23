use infiltrator::locales::{get_system_language, language_for_locale, translate_en, translate_zh_cn, Lang, Localizer};

#[test]
fn english_tags_use_the_english_table() {
    assert_eq!(Lang("en-US").tr("nav_profiles"), translate_en("nav_profiles"));
    assert_eq!(Lang("en").tr("app_title"), "MusicFrog Infiltrator");
    assert_eq!(Lang("zh-CN").tr("nav_profiles"), "配置管理");
}

#[test]
fn unknown_keys_come_back_unchanged() {
    assert_eq!(translate_en("no_such_key"), "no_such_key");
    assert_eq!(translate_zh_cn("no_such_key"), "no_such_key");
}

#[test]
fn locales_map_to_languages() {
    assert_eq!(language_for_locale(Some("zh-TW")), "zh-CN");
    assert_eq!(language_for_locale(Some("  ZH_cn ")), "zh-CN");
    assert_eq!(language_for_locale(Some("fr-FR")), "en-US");
    assert_eq!(language_for_locale(None), "en-US");
    let lang = get_system_language();
    assert!(lang == "zh-CN" || lang == "en-US");
}

#[test]
fn both_languages_have_every_text() {
    for key in ["nav_overview", "nav_dns", "rules_add_btn", "proxies_sort_delay", "overview_traffic"] {
        assert_ne!(translate_en(key), key);
        assert_ne!(translate_zh_cn(key), key);
    }
    assert_eq!(Lang("de").tr("nav_dns"), translate_zh_cn("nav_dns"));
}

#[test]
fn placeholders_appear_in_both_languages() {
    for key in ["upload_speed", "download_speed", "settings_latest_version", "status_label", "error_label"] {
        assert!(translate_en(key).contains("{0}"));
        assert!(translate_zh_cn(key).contains("{0}"));
    }
    for key in ["nav_overview", "mode_script", "btn_update", "no_such_key"] {
        assert!(!translate_en(key).contains("{0}"));
        assert!(!translate_zh_cn(key).contains("{0}"));
    }
    assert_eq!(translate_en("status_label"), "Status: {0}");
    assert_eq!(translate_zh_cn("status_label"), "状态: {0}");
}

#[test]
fn page_texts_have_translations() {
    for key in [
        "status_error", "rules_saving", "rules_saved", "rules_save_btn", "rules_empty",
        "rules_rule_providers_json", "rules_sniffer_json", "rules_save_rule_providers_btn",
        "rules_save_sniffer_btn",
    ] {
        assert_ne!(translate_en(key), key);
        assert_ne!(translate_zh_cn(key), key);
    }
}
