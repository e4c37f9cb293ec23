use crate::text::{
    ascii_lowercase, ascii_lowercase_chars, chars_start_with, has_prefix, owned, str_chars,
    str_equal, trim, trim_chars,
};
use vstd::prelude::*;

verus! {

/// Something that turns message keys into text in one language.
pub trait Localizer {
    /// The text for `key`.
    fn tr(&self, key: &str) -> String;
}

/// A language tag such as "en-US" or "zh-CN", used to look texts up.
pub struct Lang<'a>(pub &'a str);

/// The value that `table` gives `key`: the value of the first entry whose key it
/// is, or the key itself where no entry has it.
pub open spec fn lookup(table: Seq<(Seq<char>, Seq<char>)>, key: Seq<char>) -> Seq<char>
    decreases table.len(),
{
    if table.len() == 0 {
        key
    } else if table[0].0 == key {
        table[0].1
    } else {
        lookup(table.drop_first(), key)
    }
}

/// The entries of an executable table, as characters.
pub open spec fn entries_view(t: Seq<(&str, &str)>) -> Seq<(Seq<char>, Seq<char>)> {
    t.map_values(|e: (&str, &str)| (e.0@, e.1@))
}

/// Looks `key` up in a table of entries.
fn lookup_in(entries: &Vec<(&'static str, &'static str)>, key: &str) -> (r: String)
    ensures
        r@ == lookup(entries_view(entries@), key@),
{
    let mut i: usize = 0;
    assert(entries_view(entries@).skip(0) =~= entries_view(entries@));
    while i < entries.len()
        invariant
            i <= entries@.len(),
            lookup(entries_view(entries@), key@) == lookup(entries_view(entries@).skip(i as int), key@),
        decreases entries@.len() - i,
    {
        let (k, v) = entries[i];
        proof {
            let t = entries_view(entries@).skip(i as int);
            assert(t[0] == (k@, v@));
            assert(t.drop_first() =~= entries_view(entries@).skip(i + 1));
        }
        if str_equal(k, key) {
            return owned(v);
        }
        i = i + 1;
    }
    assert(entries_view(entries@).skip(i as int) =~= Seq::<(Seq<char>, Seq<char>)>::empty());
    owned(key)
}

/// The Simplified Chinese texts, by key.
pub open spec fn zh_cn_table() -> Seq<(Seq<char>, Seq<char>)> {
    seq![
        ("app_title"@, "MusicFrog Infiltrator"@),
        ("nav_overview"@, "核心概览"@),
        ("nav_profiles"@, "配置管理"@),
        ("nav_proxies"@, "代理节点"@),
        ("nav_runtime"@, "运行状态"@),
        ("nav_rules"@, "规则管理"@),
        ("nav_dns"@, "DNS 设置"@),
        ("nav_sync"@, "数据同步"@),
        ("nav_settings"@, "系统设置"@),
        ("sync_title"@, "WebDAV 同步"@),
        ("sync_url"@, "服务器地址 (URL)"@),
        ("sync_user"@, "用户名"@),
        ("sync_pass"@, "密码"@),
        ("sync_upload"@, "上传配置"@),
        ("sync_download"@, "下载配置"@),
        ("dns_title"@, "DNS & Fake-IP"@),
        ("dns_nameservers"@, "DNS 服务器 (Nameservers)"@),
        ("dns_fallback"@, "备用服务器 (Fallback)"@),
        ("dns_save"@, "保存并应用"@),
        ("dns_add"@, "添加"@),
        ("dns_add_fallback"@, "添加备用"@),
        ("dns_flush_fakeip"@, "清理 Fake-IP 缓存"@),
        ("profiles_title"@, "配置列表"@),
        ("profiles_open_folder"@, "打开配置文件夹"@),
        ("profiles_import_sub"@, "导入订阅地址"@),
        ("profiles_importing"@, "正在导入..."@),
        ("profiles_import_name_placeholder"@, "配置文件名称 (例如 MyProxy)"@),
        ("profiles_sub_url"@, "订阅 URL"@),
        ("profiles_import_btn"@, "立即导入"@),
        ("proxies_title"@, "节点选择"@),
        ("proxies_sort_delay"@, "按延迟排序"@),
        ("rules_title"@, "规则管理"@),
        ("rules_filter_placeholder"@, "搜索规则内容..."@),
        ("rules_proxy_providers"@, "代理提供者"@),
        ("rules_rule_providers"@, "规则提供者"@),
        ("rules_no_providers"@, "暂无提供者"@),
        ("rules_add_custom"@, "添加自定义规则"@),
        ("rules_type"@, "类型"@),
        ("rules_payload"@, "匹配内容 (Payload)"@),
        ("rules_target"@, "目标代理/组"@),
        ("rules_add_btn"@, "确认添加"@),
        ("refresh"@, "刷新"@),
        ("loading_profiles"@, "加载配置中..."@),
        ("no_profiles"@, "暂无配置"@),
        ("active_tag"@, " (已启用)"@),
        ("use"@, "使用"@),
        ("edit"@, "编辑"@),
        ("runtime_title"@, "运行状态"@),
        ("runtime_system_logs"@, "系统日志"@),
        ("proxy_not_running"@, "代理未运行。"@),
        ("upload_speed"@, "上传速率: {0} B/s"@),
        ("download_speed"@, "下载速率: {0} B/s"@),
        ("waiting_traffic"@, "等待流量数据..."@),
        ("settings_title"@, "设置 & 内核"@),
        ("settings_system_integration"@, "系统集成"@),
        ("settings_sniffer"@, "流量嗅探 (Sniffer)"@),
        ("settings_sniffer_desc"@, "嗅探流量以还原域名，提升路由精确度。"@),
        ("settings_kernel_mgmt"@, "内核管理"@),
        ("settings_check_update"@, "检查更新"@),
        ("settings_checking"@, "检查中..."@),
        ("settings_latest_version"@, "最新版本: {0}"@),
        ("settings_no_kernels"@, "未发现内核。"@),
        ("settings_factory_reset"@, "恢复出厂设置 (不可逆)"@),
        ("settings_uac_request"@, "以管理员身份重启"@),
        ("settings_uac_desc"@, "开启 TUN 模式需要管理员权限。点击下方按钮尝试提升权限。"@),
        ("settings_download"@, "下载"@),
        ("settings_delete"@, "删除"@),
        ("settings_set_default"@, "设为默认"@),
        ("settings_installed"@, "已安装"@),
        ("settings_available"@, "有新版本可用"@),
        ("status_starting"@, "启动中..."@),
        ("status_running"@, "运行中"@),
        ("status_stopped"@, "已停止"@),
        ("status_label"@, "状态: {0}"@),
        ("error_label"@, "错误: {0}"@),
        ("start_proxy"@, "启动代理"@),
        ("stop_proxy"@, "停止代理"@),
        ("system_proxy"@, "系统代理 (System Proxy)"@),
        ("admin_status"@, "权限状态"@),
        ("admin_authorized"@, "🛡️ 已获得管理员权限 (WinTun 就绪)"@),
        ("admin_unauthorized"@, "⚠️ 未获得管理员权限 (无法开启 TUN)"@),
        ("autostart"@, "开机自启动"@),
        ("dark_mode"@, "深色模式"@),
        ("proxy_mode"@, "代理模式"@),
        ("mode_rule"@, "规则模式"@),
        ("mode_global"@, "全局模式"@),
        ("mode_direct"@, "直连模式"@),
        ("mode_script"@, "脚本模式"@),
        ("tun_mode"@, "TUN 模式"@),
        ("tun_stack"@, "协议栈 (Stack)"@),
        ("tun_auto_route"@, "自动路由 (Auto Route)"@),
        ("tun_strict_route"@, "严格路由 (Strict Route)"@),
        ("overview_traffic"@, "实时流量"@),
        ("overview_core"@, "核心状态"@),
        ("overview_selected_global"@, "已选择 GLOBAL 节点"@),
        ("btn_save"@, "保存"@),
        ("btn_cancel"@, "取消"@),
        ("btn_close_all"@, "关闭全部"@),
        ("btn_switch"@, "切换"@),
        ("btn_update"@, "更新"@),
        ("status_error"@, "错误"@),
        ("rules_saving"@, "保存中..."@),
        ("rules_saved"@, "已保存"@),
        ("rules_save_btn"@, "保存规则"@),
        ("rules_empty"@, "暂无规则"@),
        ("rules_rule_providers_json"@, "规则提供者 (JSON)"@),
        ("rules_sniffer_json"@, "嗅探配置 (JSON)"@),
        ("rules_save_rule_providers_btn"@, "保存规则提供者"@),
        ("rules_save_sniffer_btn"@, "保存嗅探配置"@),
    ]
}
/// The English texts, by key.
pub open spec fn en_table() -> Seq<(Seq<char>, Seq<char>)> {
    seq![
        ("app_title"@, "MusicFrog Infiltrator"@),
        ("nav_overview"@, "Overview"@),
        ("nav_profiles"@, "Profiles"@),
        ("nav_proxies"@, "Proxies"@),
        ("nav_runtime"@, "Runtime"@),
        ("nav_rules"@, "Rules"@),
        ("nav_dns"@, "DNS Settings"@),
        ("nav_sync"@, "Sync"@),
        ("nav_settings"@, "Settings"@),
        ("sync_title"@, "WebDAV Sync"@),
        ("sync_url"@, "Server URL"@),
        ("sync_user"@, "Username"@),
        ("sync_pass"@, "Password"@),
        ("sync_upload"@, "Upload Config"@),
        ("sync_download"@, "Download Config"@),
        ("dns_title"@, "DNS & Fake-IP"@),
        ("dns_nameservers"@, "Nameservers"@),
        ("dns_fallback"@, "Fallback Servers"@),
        ("dns_save"@, "Save & Apply"@),
        ("dns_add"@, "Add"@),
        ("dns_add_fallback"@, "Add Fallback"@),
        ("dns_flush_fakeip"@, "Flush Fake-IP Cache"@),
        ("profiles_title"@, "Profiles & Imports"@),
        ("profiles_open_folder"@, "Open Config Folder"@),
        ("profiles_import_sub"@, "Import Subscription"@),
        ("profiles_importing"@, "Importing..."@),
        ("profiles_import_name_placeholder"@, "Profile Name (e.g. MyProxy)"@),
        ("profiles_sub_url"@, "Subscription URL"@),
        ("profiles_import_btn"@, "Import Now"@),
        ("proxies_title"@, "Proxy Selection"@),
        ("proxies_sort_delay"@, "Sort by Delay"@),
        ("rules_title"@, "Rules Management"@),
        ("rules_filter_placeholder"@, "Search rules..."@),
        ("rules_proxy_providers"@, "Proxy Providers"@),
        ("rules_rule_providers"@, "Rule Providers"@),
        ("rules_no_providers"@, "No providers"@),
        ("rules_add_custom"@, "Add Custom Rule"@),
        ("rules_type"@, "Type"@),
        ("rules_payload"@, "Payload"@),
        ("rules_target"@, "Target Proxy/Group"@),
        ("rules_add_btn"@, "Add Rule"@),
        ("refresh"@, "Refresh"@),
        ("loading_profiles"@, "Loading profiles..."@),
        ("no_profiles"@, "No profiles found."@),
        ("active_tag"@, " (Active)"@),
        ("use"@, "Use"@),
        ("edit"@, "Edit"@),
        ("runtime_title"@, "Runtime Status"@),
        ("runtime_system_logs"@, "System Logs"@),
        ("proxy_not_running"@, "Proxy is not running."@),
        ("upload_speed"@, "Upload: {0} B/s"@),
        ("download_speed"@, "Download: {0} B/s"@),
        ("waiting_traffic"@, "Waiting for traffic data..."@),
        ("settings_title"@, "Settings & Core"@),
        ("settings_system_integration"@, "System Integration"@),
        ("settings_sniffer"@, "Traffic Sniffer"@),
        ("settings_sniffer_desc"@, "Sniff traffic to restore domain names for better routing."@),
        ("settings_kernel_mgmt"@, "Kernel Management"@),
        ("settings_check_update"@, "Check Update"@),
        ("settings_checking"@, "Checking..."@),
        ("settings_latest_version"@, "Latest Version: {0}"@),
        ("settings_no_kernels"@, "No kernels found."@),
        ("settings_factory_reset"@, "Factory Reset (Irreversible)"@),
        ("settings_uac_request"@, "Restart as Administrator"@),
        ("settings_uac_desc"@, "TUN mode requires administrative privileges. Click the button below to elevate."@),
        ("settings_download"@, "Download"@),
        ("settings_delete"@, "Delete"@),
        ("settings_set_default"@, "Set Default"@),
        ("settings_installed"@, "Already installed"@),
        ("settings_available"@, "New version available"@),
        ("status_starting"@, "Starting..."@),
        ("status_running"@, "Running"@),
        ("status_stopped"@, "Stopped"@),
        ("status_label"@, "Status: {0}"@),
        ("error_label"@, "Error: {0}"@),
        ("start_proxy"@, "Start Proxy"@),
        ("stop_proxy"@, "Stop Proxy"@),
        ("system_proxy"@, "System Proxy"@),
        ("admin_status"@, "Admin Privileges"@),
        ("admin_authorized"@, "🛡️ Admin Authorized (WinTun Ready)"@),
        ("admin_unauthorized"@, "⚠️ Not Admin (TUN unavailable)"@),
        ("autostart"@, "Start on Boot"@),
        ("dark_mode"@, "Dark Mode"@),
        ("proxy_mode"@, "Proxy Mode"@),
        ("mode_rule"@, "Rule"@),
        ("mode_global"@, "Global"@),
        ("mode_direct"@, "Direct"@),
        ("mode_script"@, "Script"@),
        ("tun_mode"@, "TUN Mode"@),
        ("tun_stack"@, "Stack"@),
        ("tun_auto_route"@, "Auto Route"@),
        ("tun_strict_route"@, "Strict Route"@),
        ("overview_traffic"@, "REAL-TIME TRAFFIC"@),
        ("overview_core"@, "CORE STATUS"@),
        ("overview_selected_global"@, "Selected from GLOBAL group"@),
        ("btn_save"@, "Save"@),
        ("btn_cancel"@, "Cancel"@),
        ("btn_close_all"@, "Close All"@),
        ("btn_switch"@, "Switch"@),
        ("btn_update"@, "Update"@),
        ("status_error"@, "Error"@),
        ("rules_saving"@, "Saving..."@),
        ("rules_saved"@, "Saved"@),
        ("rules_save_btn"@, "Save Rules"@),
        ("rules_empty"@, "No rules"@),
        ("rules_rule_providers_json"@, "Rule Providers (JSON)"@),
        ("rules_sniffer_json"@, "Sniffer (JSON)"@),
        ("rules_save_rule_providers_btn"@, "Save Rule Providers"@),
        ("rules_save_sniffer_btn"@, "Save Sniffer"@),
    ]
}
/// The Simplified Chinese texts as an executable table.
fn zh_cn_entries() -> (r: Vec<(&'static str, &'static str)>)
    ensures
        entries_view(r@) == zh_cn_table(),
{
    let r = vec![
        ("app_title", "MusicFrog Infiltrator"),
        ("nav_overview", "核心概览"),
        ("nav_profiles", "配置管理"),
        ("nav_proxies", "代理节点"),
        ("nav_runtime", "运行状态"),
        ("nav_rules", "规则管理"),
        ("nav_dns", "DNS 设置"),
        ("nav_sync", "数据同步"),
        ("nav_settings", "系统设置"),
        ("sync_title", "WebDAV 同步"),
        ("sync_url", "服务器地址 (URL)"),
        ("sync_user", "用户名"),
        ("sync_pass", "密码"),
        ("sync_upload", "上传配置"),
        ("sync_download", "下载配置"),
        ("dns_title", "DNS & Fake-IP"),
        ("dns_nameservers", "DNS 服务器 (Nameservers)"),
        ("dns_fallback", "备用服务器 (Fallback)"),
        ("dns_save", "保存并应用"),
        ("dns_add", "添加"),
        ("dns_add_fallback", "添加备用"),
        ("dns_flush_fakeip", "清理 Fake-IP 缓存"),
        ("profiles_title", "配置列表"),
        ("profiles_open_folder", "打开配置文件夹"),
        ("profiles_import_sub", "导入订阅地址"),
        ("profiles_importing", "正在导入..."),
        ("profiles_import_name_placeholder", "配置文件名称 (例如 MyProxy)"),
        ("profiles_sub_url", "订阅 URL"),
        ("profiles_import_btn", "立即导入"),
        ("proxies_title", "节点选择"),
        ("proxies_sort_delay", "按延迟排序"),
        ("rules_title", "规则管理"),
        ("rules_filter_placeholder", "搜索规则内容..."),
        ("rules_proxy_providers", "代理提供者"),
        ("rules_rule_providers", "规则提供者"),
        ("rules_no_providers", "暂无提供者"),
        ("rules_add_custom", "添加自定义规则"),
        ("rules_type", "类型"),
        ("rules_payload", "匹配内容 (Payload)"),
        ("rules_target", "目标代理/组"),
        ("rules_add_btn", "确认添加"),
        ("refresh", "刷新"),
        ("loading_profiles", "加载配置中..."),
        ("no_profiles", "暂无配置"),
        ("active_tag", " (已启用)"),
        ("use", "使用"),
        ("edit", "编辑"),
        ("runtime_title", "运行状态"),
        ("runtime_system_logs", "系统日志"),
        ("proxy_not_running", "代理未运行。"),
        ("upload_speed", "上传速率: {0} B/s"),
        ("download_speed", "下载速率: {0} B/s"),
        ("waiting_traffic", "等待流量数据..."),
        ("settings_title", "设置 & 内核"),
        ("settings_system_integration", "系统集成"),
        ("settings_sniffer", "流量嗅探 (Sniffer)"),
        ("settings_sniffer_desc", "嗅探流量以还原域名，提升路由精确度。"),
        ("settings_kernel_mgmt", "内核管理"),
        ("settings_check_update", "检查更新"),
        ("settings_checking", "检查中..."),
        ("settings_latest_version", "最新版本: {0}"),
        ("settings_no_kernels", "未发现内核。"),
        ("settings_factory_reset", "恢复出厂设置 (不可逆)"),
        ("settings_uac_request", "以管理员身份重启"),
        ("settings_uac_desc", "开启 TUN 模式需要管理员权限。点击下方按钮尝试提升权限。"),
        ("settings_download", "下载"),
        ("settings_delete", "删除"),
        ("settings_set_default", "设为默认"),
        ("settings_installed", "已安装"),
        ("settings_available", "有新版本可用"),
        ("status_starting", "启动中..."),
        ("status_running", "运行中"),
        ("status_stopped", "已停止"),
        ("status_label", "状态: {0}"),
        ("error_label", "错误: {0}"),
        ("start_proxy", "启动代理"),
        ("stop_proxy", "停止代理"),
        ("system_proxy", "系统代理 (System Proxy)"),
        ("admin_status", "权限状态"),
        ("admin_authorized", "🛡️ 已获得管理员权限 (WinTun 就绪)"),
        ("admin_unauthorized", "⚠️ 未获得管理员权限 (无法开启 TUN)"),
        ("autostart", "开机自启动"),
        ("dark_mode", "深色模式"),
        ("proxy_mode", "代理模式"),
        ("mode_rule", "规则模式"),
        ("mode_global", "全局模式"),
        ("mode_direct", "直连模式"),
        ("mode_script", "脚本模式"),
        ("tun_mode", "TUN 模式"),
        ("tun_stack", "协议栈 (Stack)"),
        ("tun_auto_route", "自动路由 (Auto Route)"),
        ("tun_strict_route", "严格路由 (Strict Route)"),
        ("overview_traffic", "实时流量"),
        ("overview_core", "核心状态"),
        ("overview_selected_global", "已选择 GLOBAL 节点"),
        ("btn_save", "保存"),
        ("btn_cancel", "取消"),
        ("btn_close_all", "关闭全部"),
        ("btn_switch", "切换"),
        ("btn_update", "更新"),
        ("status_error", "错误"),
        ("rules_saving", "保存中..."),
        ("rules_saved", "已保存"),
        ("rules_save_btn", "保存规则"),
        ("rules_empty", "暂无规则"),
        ("rules_rule_providers_json", "规则提供者 (JSON)"),
        ("rules_sniffer_json", "嗅探配置 (JSON)"),
        ("rules_save_rule_providers_btn", "保存规则提供者"),
        ("rules_save_sniffer_btn", "保存嗅探配置"),
    ];
    assert(entries_view(r@) =~= zh_cn_table());
    r
}
/// The English texts as an executable table.
fn en_entries() -> (r: Vec<(&'static str, &'static str)>)
    ensures
        entries_view(r@) == en_table(),
{
    let r = vec![
        ("app_title", "MusicFrog Infiltrator"),
        ("nav_overview", "Overview"),
        ("nav_profiles", "Profiles"),
        ("nav_proxies", "Proxies"),
        ("nav_runtime", "Runtime"),
        ("nav_rules", "Rules"),
        ("nav_dns", "DNS Settings"),
        ("nav_sync", "Sync"),
        ("nav_settings", "Settings"),
        ("sync_title", "WebDAV Sync"),
        ("sync_url", "Server URL"),
        ("sync_user", "Username"),
        ("sync_pass", "Password"),
        ("sync_upload", "Upload Config"),
        ("sync_download", "Download Config"),
        ("dns_title", "DNS & Fake-IP"),
        ("dns_nameservers", "Nameservers"),
        ("dns_fallback", "Fallback Servers"),
        ("dns_save", "Save & Apply"),
        ("dns_add", "Add"),
        ("dns_add_fallback", "Add Fallback"),
        ("dns_flush_fakeip", "Flush Fake-IP Cache"),
        ("profiles_title", "Profiles & Imports"),
        ("profiles_open_folder", "Open Config Folder"),
        ("profiles_import_sub", "Import Subscription"),
        ("profiles_importing", "Importing..."),
        ("profiles_import_name_placeholder", "Profile Name (e.g. MyProxy)"),
        ("profiles_sub_url", "Subscription URL"),
        ("profiles_import_btn", "Import Now"),
        ("proxies_title", "Proxy Selection"),
        ("proxies_sort_delay", "Sort by Delay"),
        ("rules_title", "Rules Management"),
        ("rules_filter_placeholder", "Search rules..."),
        ("rules_proxy_providers", "Proxy Providers"),
        ("rules_rule_providers", "Rule Providers"),
        ("rules_no_providers", "No providers"),
        ("rules_add_custom", "Add Custom Rule"),
        ("rules_type", "Type"),
        ("rules_payload", "Payload"),
        ("rules_target", "Target Proxy/Group"),
        ("rules_add_btn", "Add Rule"),
        ("refresh", "Refresh"),
        ("loading_profiles", "Loading profiles..."),
        ("no_profiles", "No profiles found."),
        ("active_tag", " (Active)"),
        ("use", "Use"),
        ("edit", "Edit"),
        ("runtime_title", "Runtime Status"),
        ("runtime_system_logs", "System Logs"),
        ("proxy_not_running", "Proxy is not running."),
        ("upload_speed", "Upload: {0} B/s"),
        ("download_speed", "Download: {0} B/s"),
        ("waiting_traffic", "Waiting for traffic data..."),
        ("settings_title", "Settings & Core"),
        ("settings_system_integration", "System Integration"),
        ("settings_sniffer", "Traffic Sniffer"),
        ("settings_sniffer_desc", "Sniff traffic to restore domain names for better routing."),
        ("settings_kernel_mgmt", "Kernel Management"),
        ("settings_check_update", "Check Update"),
        ("settings_checking", "Checking..."),
        ("settings_latest_version", "Latest Version: {0}"),
        ("settings_no_kernels", "No kernels found."),
        ("settings_factory_reset", "Factory Reset (Irreversible)"),
        ("settings_uac_request", "Restart as Administrator"),
        ("settings_uac_desc", "TUN mode requires administrative privileges. Click the button below to elevate."),
        ("settings_download", "Download"),
        ("settings_delete", "Delete"),
        ("settings_set_default", "Set Default"),
        ("settings_installed", "Already installed"),
        ("settings_available", "New version available"),
        ("status_starting", "Starting..."),
        ("status_running", "Running"),
        ("status_stopped", "Stopped"),
        ("status_label", "Status: {0}"),
        ("error_label", "Error: {0}"),
        ("start_proxy", "Start Proxy"),
        ("stop_proxy", "Stop Proxy"),
        ("system_proxy", "System Proxy"),
        ("admin_status", "Admin Privileges"),
        ("admin_authorized", "🛡️ Admin Authorized (WinTun Ready)"),
        ("admin_unauthorized", "⚠️ Not Admin (TUN unavailable)"),
        ("autostart", "Start on Boot"),
        ("dark_mode", "Dark Mode"),
        ("proxy_mode", "Proxy Mode"),
        ("mode_rule", "Rule"),
        ("mode_global", "Global"),
        ("mode_direct", "Direct"),
        ("mode_script", "Script"),
        ("tun_mode", "TUN Mode"),
        ("tun_stack", "Stack"),
        ("tun_auto_route", "Auto Route"),
        ("tun_strict_route", "Strict Route"),
        ("overview_traffic", "REAL-TIME TRAFFIC"),
        ("overview_core", "CORE STATUS"),
        ("overview_selected_global", "Selected from GLOBAL group"),
        ("btn_save", "Save"),
        ("btn_cancel", "Cancel"),
        ("btn_close_all", "Close All"),
        ("btn_switch", "Switch"),
        ("btn_update", "Update"),
        ("status_error", "Error"),
        ("rules_saving", "Saving..."),
        ("rules_saved", "Saved"),
        ("rules_save_btn", "Save Rules"),
        ("rules_empty", "No rules"),
        ("rules_rule_providers_json", "Rule Providers (JSON)"),
        ("rules_sniffer_json", "Sniffer (JSON)"),
        ("rules_save_rule_providers_btn", "Save Rule Providers"),
        ("rules_save_sniffer_btn", "Save Sniffer"),
    ];
    assert(entries_view(r@) =~= en_table());
    r
}
/// The Simplified Chinese text for `key`, or the key itself where there is none.
pub fn translate_zh_cn(key: &str) -> (r: String)
    ensures
        r@ == lookup(zh_cn_table(), key@),
{
    let entries = zh_cn_entries();
    lookup_in(&entries, key)
}

/// The English text for `key`, or the key itself where there is none.
pub fn translate_en(key: &str) -> (r: String)
    ensures
        r@ == lookup(en_table(), key@),
{
    let entries = en_entries();
    lookup_in(&entries, key)
}

/// Whether a language tag selects the English texts; every other tag gets Chinese.
pub open spec fn is_english(tag: Seq<char>) -> bool {
    tag == "en-US"@ || tag == "en"@
}

/// The text that a language tag gives a key.
pub open spec fn translation(tag: Seq<char>, key: Seq<char>) -> Seq<char> {
    if is_english(tag) {
        lookup(en_table(), key)
    } else {
        lookup(zh_cn_table(), key)
    }
}

impl<'a> Localizer for Lang<'a> {
    fn tr(&self, key: &str) -> (r: String)
        ensures
            r@ == translation(self.0@, key@),
    {
        if str_equal(self.0, "en-US") || str_equal(self.0, "en") {
            translate_en(key)
        } else {
            translate_zh_cn(key)
        }
    }
}

/// The language tag for a system locale: "zh-CN" where the locale, trimmed and in
/// ASCII lower case, starts with "zh"; "en-US" for any other locale or none.
pub open spec fn language_for(locale: Option<Seq<char>>) -> Seq<char> {
    match locale {
        Some(l) => if has_prefix(ascii_lowercase(trim(l)), "zh"@) {
            "zh-CN"@
        } else {
            "en-US"@
        },
        None => "en-US"@,
    }
}

/// The language tag for a system locale.
pub fn language_for_locale(locale: Option<&str>) -> (r: String)
    ensures
        r@ == language_for(match locale {
            Some(l) => Some(l@),
            None => None,
        }),
{
    match locale {
        Some(l) => {
            let chars = str_chars(l);
            let trimmed = trim_chars(chars.as_slice());
            let lower = ascii_lowercase_chars(trimmed.as_slice());
            let zh = str_chars("zh");
            if chars_start_with(lower.as_slice(), zh.as_slice()) {
                owned("zh-CN")
            } else {
                owned("en-US")
            }
        },
        None => owned("en-US"),
    }
}

/// `sys_locale::get_locale`: the locale the operating system reports, if any.
/// What it returns depends on the machine, so nothing is stated of it.
#[verifier::external_body]
fn system_locale() -> Option<String> {
    sys_locale::get_locale()
}

/// The language tag for the system's locale.
pub fn get_system_language() -> (r: String)
    ensures
        r@ == "zh-CN"@ || r@ == "en-US"@,
{
    let locale = system_locale();
    match locale {
        Some(l) => language_for_locale(Some(l.as_str())),
        None => language_for_locale(None),
    }
}

/// The keys of a table, in order.
pub open spec fn table_keys(t: Seq<(Seq<char>, Seq<char>)>) -> Seq<Seq<char>> {
    t.map_values(|e: (Seq<char>, Seq<char>)| e.0)
}

/// Both languages have a text for exactly the same keys, listed in the same
/// order: no text of the interface is missing from either table.
pub proof fn law_both_languages_know_the_same_keys()
    ensures
        table_keys(zh_cn_table()) == table_keys(en_table()),
        forall|key: Seq<char>|
            #[trigger] table_keys(zh_cn_table()).contains(key) <==> table_keys(en_table()).contains(key),
{
    assert(table_keys(zh_cn_table()) =~= table_keys(en_table()));
}

/// Any language tag other than "en-US" and "en" reads the Chinese texts.
pub proof fn law_other_languages_fall_back_to_chinese(tag: Seq<char>, key: Seq<char>)
    requires
        tag != "en-US"@,
        tag != "en"@,
    ensures
        translation(tag, key) == lookup(zh_cn_table(), key),
{
}


/// Whether `s` holds the placeholder "{0}" that a value is put in for.
pub open spec fn has_placeholder(s: Seq<char>) -> bool {
    exists|j: int| 0 <= j && j + 3 <= s.len() && #[trigger] s[j] == '{' && s[j + 1] == '0' && s[j + 2] == '}'
}

/// The keys whose texts hold a placeholder.
pub open spec fn is_placeholder_key(key: Seq<char>) -> bool {
    key == "upload_speed"@
        || key == "download_speed"@
        || key == "settings_latest_version"@
        || key == "status_label"@
        || key == "error_label"@
}

/// Two entries, one of each table, for the same key: neither text is the key
/// itself, and both hold a placeholder exactly where the key is a placeholder
/// key.
pub open spec fn entries_agree(z: (Seq<char>, Seq<char>), e: (Seq<char>, Seq<char>)) -> bool {
    &&& z.0 == e.0
    &&& z.1 != z.0
    &&& e.1 != e.0
    &&& has_placeholder(z.1) == has_placeholder(e.1)
    &&& has_placeholder(z.1) <==> is_placeholder_key(z.0)
}

/// The two tables agree entry by entry.
#[verifier::rlimit(100)]
proof fn lemma_tables_agree_entrywise()
    ensures
        zh_cn_table().len() == en_table().len(),
        forall|i: int| 0 <= i < zh_cn_table().len() ==> #[trigger] entries_agree(zh_cn_table()[i], en_table()[i]),
{
    reveal_strlit("app_title");
    reveal_strlit("MusicFrog Infiltrator");
    reveal_strlit("nav_overview");
    reveal_strlit("核心概览");
    reveal_strlit("Overview");
    reveal_strlit("nav_profiles");
    reveal_strlit("配置管理");
    reveal_strlit("Profiles");
    reveal_strlit("nav_proxies");
    reveal_strlit("代理节点");
    reveal_strlit("Proxies");
    reveal_strlit("nav_runtime");
    reveal_strlit("运行状态");
    reveal_strlit("Runtime");
    reveal_strlit("nav_rules");
    reveal_strlit("规则管理");
    reveal_strlit("Rules");
    reveal_strlit("nav_dns");
    reveal_strlit("DNS 设置");
    reveal_strlit("DNS Settings");
    reveal_strlit("nav_sync");
    reveal_strlit("数据同步");
    reveal_strlit("Sync");
    reveal_strlit("nav_settings");
    reveal_strlit("系统设置");
    reveal_strlit("Settings");
    reveal_strlit("sync_title");
    reveal_strlit("WebDAV 同步");
    reveal_strlit("WebDAV Sync");
    reveal_strlit("sync_url");
    reveal_strlit("服务器地址 (URL)");
    reveal_strlit("Server URL");
    reveal_strlit("sync_user");
    reveal_strlit("用户名");
    reveal_strlit("Username");
    reveal_strlit("sync_pass");
    reveal_strlit("密码");
    reveal_strlit("Password");
    reveal_strlit("sync_upload");
    reveal_strlit("上传配置");
    reveal_strlit("Upload Config");
    reveal_strlit("sync_download");
    reveal_strlit("下载配置");
    reveal_strlit("Download Config");
    reveal_strlit("dns_title");
    reveal_strlit("DNS & Fake-IP");
    reveal_strlit("dns_nameservers");
    reveal_strlit("DNS 服务器 (Nameservers)");
    reveal_strlit("Nameservers");
    reveal_strlit("dns_fallback");
    reveal_strlit("备用服务器 (Fallback)");
    reveal_strlit("Fallback Servers");
    reveal_strlit("dns_save");
    reveal_strlit("保存并应用");
    reveal_strlit("Save & Apply");
    reveal_strlit("dns_add");
    reveal_strlit("添加");
    reveal_strlit("Add");
    reveal_strlit("dns_add_fallback");
    reveal_strlit("添加备用");
    reveal_strlit("Add Fallback");
    reveal_strlit("dns_flush_fakeip");
    reveal_strlit("清理 Fake-IP 缓存");
    reveal_strlit("Flush Fake-IP Cache");
    reveal_strlit("profiles_title");
    reveal_strlit("配置列表");
    reveal_strlit("Profiles & Imports");
    reveal_strlit("profiles_open_folder");
    reveal_strlit("打开配置文件夹");
    reveal_strlit("Open Config Folder");
    reveal_strlit("profiles_import_sub");
    reveal_strlit("导入订阅地址");
    reveal_strlit("Import Subscription");
    reveal_strlit("profiles_importing");
    reveal_strlit("正在导入...");
    reveal_strlit("Importing...");
    reveal_strlit("profiles_import_name_placeholder");
    reveal_strlit("配置文件名称 (例如 MyProxy)");
    reveal_strlit("Profile Name (e.g. MyProxy)");
    reveal_strlit("profiles_sub_url");
    reveal_strlit("订阅 URL");
    reveal_strlit("Subscription URL");
    reveal_strlit("profiles_import_btn");
    reveal_strlit("立即导入");
    reveal_strlit("Import Now");
    reveal_strlit("proxies_title");
    reveal_strlit("节点选择");
    reveal_strlit("Proxy Selection");
    reveal_strlit("proxies_sort_delay");
    reveal_strlit("按延迟排序");
    reveal_strlit("Sort by Delay");
    reveal_strlit("rules_title");
    reveal_strlit("Rules Management");
    reveal_strlit("rules_filter_placeholder");
    reveal_strlit("搜索规则内容...");
    reveal_strlit("Search rules...");
    reveal_strlit("rules_proxy_providers");
    reveal_strlit("代理提供者");
    reveal_strlit("Proxy Providers");
    reveal_strlit("rules_rule_providers");
    reveal_strlit("规则提供者");
    reveal_strlit("Rule Providers");
    reveal_strlit("rules_no_providers");
    reveal_strlit("暂无提供者");
    reveal_strlit("No providers");
    reveal_strlit("rules_add_custom");
    reveal_strlit("添加自定义规则");
    reveal_strlit("Add Custom Rule");
    reveal_strlit("rules_type");
    reveal_strlit("类型");
    reveal_strlit("Type");
    reveal_strlit("rules_payload");
    reveal_strlit("匹配内容 (Payload)");
    reveal_strlit("Payload");
    reveal_strlit("rules_target");
    reveal_strlit("目标代理/组");
    reveal_strlit("Target Proxy/Group");
    reveal_strlit("rules_add_btn");
    reveal_strlit("确认添加");
    reveal_strlit("Add Rule");
    reveal_strlit("refresh");
    reveal_strlit("刷新");
    reveal_strlit("Refresh");
    reveal_strlit("loading_profiles");
    reveal_strlit("加载配置中...");
    reveal_strlit("Loading profiles...");
    reveal_strlit("no_profiles");
    reveal_strlit("暂无配置");
    reveal_strlit("No profiles found.");
    reveal_strlit("active_tag");
    reveal_strlit(" (已启用)");
    reveal_strlit(" (Active)");
    reveal_strlit("use");
    reveal_strlit("使用");
    reveal_strlit("Use");
    reveal_strlit("edit");
    reveal_strlit("编辑");
    reveal_strlit("Edit");
    reveal_strlit("runtime_title");
    reveal_strlit("Runtime Status");
    reveal_strlit("runtime_system_logs");
    reveal_strlit("系统日志");
    reveal_strlit("System Logs");
    reveal_strlit("proxy_not_running");
    reveal_strlit("代理未运行。");
    reveal_strlit("Proxy is not running.");
    reveal_strlit("upload_speed");
    reveal_strlit("上传速率: {0} B/s");
    reveal_strlit("Upload: {0} B/s");
    reveal_strlit("download_speed");
    reveal_strlit("下载速率: {0} B/s");
    reveal_strlit("Download: {0} B/s");
    reveal_strlit("waiting_traffic");
    reveal_strlit("等待流量数据...");
    reveal_strlit("Waiting for traffic data...");
    reveal_strlit("settings_title");
    reveal_strlit("设置 & 内核");
    reveal_strlit("Settings & Core");
    reveal_strlit("settings_system_integration");
    reveal_strlit("系统集成");
    reveal_strlit("System Integration");
    reveal_strlit("settings_sniffer");
    reveal_strlit("流量嗅探 (Sniffer)");
    reveal_strlit("Traffic Sniffer");
    reveal_strlit("settings_sniffer_desc");
    reveal_strlit("嗅探流量以还原域名，提升路由精确度。");
    reveal_strlit("Sniff traffic to restore domain names for better routing.");
    reveal_strlit("settings_kernel_mgmt");
    reveal_strlit("内核管理");
    reveal_strlit("Kernel Management");
    reveal_strlit("settings_check_update");
    reveal_strlit("检查更新");
    reveal_strlit("Check Update");
    reveal_strlit("settings_checking");
    reveal_strlit("检查中...");
    reveal_strlit("Checking...");
    reveal_strlit("settings_latest_version");
    reveal_strlit("最新版本: {0}");
    reveal_strlit("Latest Version: {0}");
    reveal_strlit("settings_no_kernels");
    reveal_strlit("未发现内核。");
    reveal_strlit("No kernels found.");
    reveal_strlit("settings_factory_reset");
    reveal_strlit("恢复出厂设置 (不可逆)");
    reveal_strlit("Factory Reset (Irreversible)");
    reveal_strlit("settings_uac_request");
    reveal_strlit("以管理员身份重启");
    reveal_strlit("Restart as Administrator");
    reveal_strlit("settings_uac_desc");
    reveal_strlit("开启 TUN 模式需要管理员权限。点击下方按钮尝试提升权限。");
    reveal_strlit("TUN mode requires administrative privileges. Click the button below to elevate.");
    reveal_strlit("settings_download");
    reveal_strlit("下载");
    reveal_strlit("Download");
    reveal_strlit("settings_delete");
    reveal_strlit("删除");
    reveal_strlit("Delete");
    reveal_strlit("settings_set_default");
    reveal_strlit("设为默认");
    reveal_strlit("Set Default");
    reveal_strlit("settings_installed");
    reveal_strlit("已安装");
    reveal_strlit("Already installed");
    reveal_strlit("settings_available");
    reveal_strlit("有新版本可用");
    reveal_strlit("New version available");
    reveal_strlit("status_starting");
    reveal_strlit("启动中...");
    reveal_strlit("Starting...");
    reveal_strlit("status_running");
    reveal_strlit("运行中");
    reveal_strlit("Running");
    reveal_strlit("status_stopped");
    reveal_strlit("已停止");
    reveal_strlit("Stopped");
    reveal_strlit("status_label");
    reveal_strlit("状态: {0}");
    reveal_strlit("Status: {0}");
    reveal_strlit("error_label");
    reveal_strlit("错误: {0}");
    reveal_strlit("Error: {0}");
    reveal_strlit("start_proxy");
    reveal_strlit("启动代理");
    reveal_strlit("Start Proxy");
    reveal_strlit("stop_proxy");
    reveal_strlit("停止代理");
    reveal_strlit("Stop Proxy");
    reveal_strlit("system_proxy");
    reveal_strlit("系统代理 (System Proxy)");
    reveal_strlit("System Proxy");
    reveal_strlit("admin_status");
    reveal_strlit("权限状态");
    reveal_strlit("Admin Privileges");
    reveal_strlit("admin_authorized");
    reveal_strlit("🛡️ 已获得管理员权限 (WinTun 就绪)");
    reveal_strlit("🛡️ Admin Authorized (WinTun Ready)");
    reveal_strlit("admin_unauthorized");
    reveal_strlit("⚠️ 未获得管理员权限 (无法开启 TUN)");
    reveal_strlit("⚠️ Not Admin (TUN unavailable)");
    reveal_strlit("autostart");
    reveal_strlit("开机自启动");
    reveal_strlit("Start on Boot");
    reveal_strlit("dark_mode");
    reveal_strlit("深色模式");
    reveal_strlit("Dark Mode");
    reveal_strlit("proxy_mode");
    reveal_strlit("代理模式");
    reveal_strlit("Proxy Mode");
    reveal_strlit("mode_rule");
    reveal_strlit("规则模式");
    reveal_strlit("Rule");
    reveal_strlit("mode_global");
    reveal_strlit("全局模式");
    reveal_strlit("Global");
    reveal_strlit("mode_direct");
    reveal_strlit("直连模式");
    reveal_strlit("Direct");
    reveal_strlit("mode_script");
    reveal_strlit("脚本模式");
    reveal_strlit("Script");
    reveal_strlit("tun_mode");
    reveal_strlit("TUN 模式");
    reveal_strlit("TUN Mode");
    reveal_strlit("tun_stack");
    reveal_strlit("协议栈 (Stack)");
    reveal_strlit("Stack");
    reveal_strlit("tun_auto_route");
    reveal_strlit("自动路由 (Auto Route)");
    reveal_strlit("Auto Route");
    reveal_strlit("tun_strict_route");
    reveal_strlit("严格路由 (Strict Route)");
    reveal_strlit("Strict Route");
    reveal_strlit("overview_traffic");
    reveal_strlit("实时流量");
    reveal_strlit("REAL-TIME TRAFFIC");
    reveal_strlit("overview_core");
    reveal_strlit("核心状态");
    reveal_strlit("CORE STATUS");
    reveal_strlit("overview_selected_global");
    reveal_strlit("已选择 GLOBAL 节点");
    reveal_strlit("Selected from GLOBAL group");
    reveal_strlit("btn_save");
    reveal_strlit("保存");
    reveal_strlit("Save");
    reveal_strlit("btn_cancel");
    reveal_strlit("取消");
    reveal_strlit("Cancel");
    reveal_strlit("btn_close_all");
    reveal_strlit("关闭全部");
    reveal_strlit("Close All");
    reveal_strlit("btn_switch");
    reveal_strlit("切换");
    reveal_strlit("Switch");
    reveal_strlit("btn_update");
    reveal_strlit("更新");
    reveal_strlit("Update");
    reveal_strlit("status_error");
    reveal_strlit("错误");
    reveal_strlit("Error");
    reveal_strlit("rules_saving");
    reveal_strlit("保存中...");
    reveal_strlit("Saving...");
    reveal_strlit("rules_saved");
    reveal_strlit("已保存");
    reveal_strlit("Saved");
    reveal_strlit("rules_save_btn");
    reveal_strlit("保存规则");
    reveal_strlit("Save Rules");
    reveal_strlit("rules_empty");
    reveal_strlit("暂无规则");
    reveal_strlit("No rules");
    reveal_strlit("rules_rule_providers_json");
    reveal_strlit("规则提供者 (JSON)");
    reveal_strlit("Rule Providers (JSON)");
    reveal_strlit("rules_sniffer_json");
    reveal_strlit("嗅探配置 (JSON)");
    reveal_strlit("Sniffer (JSON)");
    reveal_strlit("rules_save_rule_providers_btn");
    reveal_strlit("保存规则提供者");
    reveal_strlit("Save Rule Providers");
    reveal_strlit("rules_save_sniffer_btn");
    reveal_strlit("保存嗅探配置");
    reveal_strlit("Save Sniffer");
    assert("MusicFrog Infiltrator"@[0] != "app_title"@[0]);
    assert("MusicFrog Infiltrator"@[0] != "app_title"@[0]);
    assert("核心概览"@[0] != "nav_overview"@[0]);
    assert("Overview"@[0] != "nav_overview"@[0]);
    assert("配置管理"@[0] != "nav_profiles"@[0]);
    assert("Profiles"@[0] != "nav_profiles"@[0]);
    assert("代理节点"@[0] != "nav_proxies"@[0]);
    assert("Proxies"@[0] != "nav_proxies"@[0]);
    assert("运行状态"@[0] != "nav_runtime"@[0]);
    assert("Runtime"@[0] != "nav_runtime"@[0]);
    assert("规则管理"@[0] != "nav_rules"@[0]);
    assert("Rules"@[0] != "nav_rules"@[0]);
    assert("DNS 设置"@[0] != "nav_dns"@[0]);
    assert("DNS Settings"@[0] != "nav_dns"@[0]);
    assert("数据同步"@[0] != "nav_sync"@[0]);
    assert("Sync"@[0] != "nav_sync"@[0]);
    assert("系统设置"@[0] != "nav_settings"@[0]);
    assert("Settings"@[0] != "nav_settings"@[0]);
    assert("WebDAV 同步"@[0] != "sync_title"@[0]);
    assert("WebDAV Sync"@[0] != "sync_title"@[0]);
    assert("服务器地址 (URL)"@[0] != "sync_url"@[0]);
    assert("Server URL"@[0] != "sync_url"@[0]);
    assert("用户名"@[0] != "sync_user"@[0]);
    assert("Username"@[0] != "sync_user"@[0]);
    assert("密码"@[0] != "sync_pass"@[0]);
    assert("Password"@[0] != "sync_pass"@[0]);
    assert("上传配置"@[0] != "sync_upload"@[0]);
    assert("Upload Config"@[0] != "sync_upload"@[0]);
    assert("下载配置"@[0] != "sync_download"@[0]);
    assert("Download Config"@[0] != "sync_download"@[0]);
    assert("DNS & Fake-IP"@[0] != "dns_title"@[0]);
    assert("DNS & Fake-IP"@[0] != "dns_title"@[0]);
    assert("DNS 服务器 (Nameservers)"@[0] != "dns_nameservers"@[0]);
    assert("Nameservers"@[0] != "dns_nameservers"@[0]);
    assert("备用服务器 (Fallback)"@[0] != "dns_fallback"@[0]);
    assert("Fallback Servers"@[0] != "dns_fallback"@[0]);
    assert("保存并应用"@[0] != "dns_save"@[0]);
    assert("Save & Apply"@[0] != "dns_save"@[0]);
    assert("添加"@[0] != "dns_add"@[0]);
    assert("Add"@[0] != "dns_add"@[0]);
    assert("添加备用"@[0] != "dns_add_fallback"@[0]);
    assert("Add Fallback"@[0] != "dns_add_fallback"@[0]);
    assert("清理 Fake-IP 缓存"@[0] != "dns_flush_fakeip"@[0]);
    assert("Flush Fake-IP Cache"@[0] != "dns_flush_fakeip"@[0]);
    assert("配置列表"@[0] != "profiles_title"@[0]);
    assert("Profiles & Imports"@[0] != "profiles_title"@[0]);
    assert("打开配置文件夹"@[0] != "profiles_open_folder"@[0]);
    assert("Open Config Folder"@[0] != "profiles_open_folder"@[0]);
    assert("导入订阅地址"@[0] != "profiles_import_sub"@[0]);
    assert("Import Subscription"@[0] != "profiles_import_sub"@[0]);
    assert("正在导入..."@[0] != "profiles_importing"@[0]);
    assert("Importing..."@[0] != "profiles_importing"@[0]);
    assert("配置文件名称 (例如 MyProxy)"@[0] != "profiles_import_name_placeholder"@[0]);
    assert("Profile Name (e.g. MyProxy)"@[0] != "profiles_import_name_placeholder"@[0]);
    assert("订阅 URL"@[0] != "profiles_sub_url"@[0]);
    assert("Subscription URL"@[0] != "profiles_sub_url"@[0]);
    assert("立即导入"@[0] != "profiles_import_btn"@[0]);
    assert("Import Now"@[0] != "profiles_import_btn"@[0]);
    assert("节点选择"@[0] != "proxies_title"@[0]);
    assert("Proxy Selection"@[0] != "proxies_title"@[0]);
    assert("按延迟排序"@[0] != "proxies_sort_delay"@[0]);
    assert("Sort by Delay"@[0] != "proxies_sort_delay"@[0]);
    assert("规则管理"@[0] != "rules_title"@[0]);
    assert("Rules Management"@[0] != "rules_title"@[0]);
    assert("搜索规则内容..."@[0] != "rules_filter_placeholder"@[0]);
    assert("Search rules..."@[0] != "rules_filter_placeholder"@[0]);
    assert("代理提供者"@[0] != "rules_proxy_providers"@[0]);
    assert("Proxy Providers"@[0] != "rules_proxy_providers"@[0]);
    assert("规则提供者"@[0] != "rules_rule_providers"@[0]);
    assert("Rule Providers"@[0] != "rules_rule_providers"@[0]);
    assert("暂无提供者"@[0] != "rules_no_providers"@[0]);
    assert("No providers"@[0] != "rules_no_providers"@[0]);
    assert("添加自定义规则"@[0] != "rules_add_custom"@[0]);
    assert("Add Custom Rule"@[0] != "rules_add_custom"@[0]);
    assert("类型"@[0] != "rules_type"@[0]);
    assert("Type"@[0] != "rules_type"@[0]);
    assert("匹配内容 (Payload)"@[0] != "rules_payload"@[0]);
    assert("Payload"@[0] != "rules_payload"@[0]);
    assert("目标代理/组"@[0] != "rules_target"@[0]);
    assert("Target Proxy/Group"@[0] != "rules_target"@[0]);
    assert("确认添加"@[0] != "rules_add_btn"@[0]);
    assert("Add Rule"@[0] != "rules_add_btn"@[0]);
    assert("刷新"@[0] != "refresh"@[0]);
    assert("Refresh"@[0] != "refresh"@[0]);
    assert("加载配置中..."@[0] != "loading_profiles"@[0]);
    assert("Loading profiles..."@[0] != "loading_profiles"@[0]);
    assert("暂无配置"@[0] != "no_profiles"@[0]);
    assert("No profiles found."@[0] != "no_profiles"@[0]);
    assert(" (已启用)"@[0] != "active_tag"@[0]);
    assert(" (Active)"@[0] != "active_tag"@[0]);
    assert("使用"@[0] != "use"@[0]);
    assert("Use"@[0] != "use"@[0]);
    assert("编辑"@[0] != "edit"@[0]);
    assert("Edit"@[0] != "edit"@[0]);
    assert("运行状态"@[0] != "runtime_title"@[0]);
    assert("Runtime Status"@[0] != "runtime_title"@[0]);
    assert("系统日志"@[0] != "runtime_system_logs"@[0]);
    assert("System Logs"@[0] != "runtime_system_logs"@[0]);
    assert("代理未运行。"@[0] != "proxy_not_running"@[0]);
    assert("Proxy is not running."@[0] != "proxy_not_running"@[0]);
    assert("上传速率: {0} B/s"@[0] != "upload_speed"@[0]);
    assert("上传速率: {0} B/s"@[6] == '{' && "上传速率: {0} B/s"@[7] == '0' && "上传速率: {0} B/s"@[8] == '}');
    assert("Upload: {0} B/s"@[0] != "upload_speed"@[0]);
    assert("Upload: {0} B/s"@[8] == '{' && "Upload: {0} B/s"@[9] == '0' && "Upload: {0} B/s"@[10] == '}');
    assert("下载速率: {0} B/s"@[0] != "download_speed"@[0]);
    assert("下载速率: {0} B/s"@[6] == '{' && "下载速率: {0} B/s"@[7] == '0' && "下载速率: {0} B/s"@[8] == '}');
    assert("Download: {0} B/s"@[0] != "download_speed"@[0]);
    assert("Download: {0} B/s"@[10] == '{' && "Download: {0} B/s"@[11] == '0' && "Download: {0} B/s"@[12] == '}');
    assert("等待流量数据..."@[0] != "waiting_traffic"@[0]);
    assert("Waiting for traffic data..."@[0] != "waiting_traffic"@[0]);
    assert("设置 & 内核"@[0] != "settings_title"@[0]);
    assert("Settings & Core"@[0] != "settings_title"@[0]);
    assert("系统集成"@[0] != "settings_system_integration"@[0]);
    assert("System Integration"@[0] != "settings_system_integration"@[0]);
    assert("流量嗅探 (Sniffer)"@[0] != "settings_sniffer"@[0]);
    assert("Traffic Sniffer"@[0] != "settings_sniffer"@[0]);
    assert("嗅探流量以还原域名，提升路由精确度。"@[0] != "settings_sniffer_desc"@[0]);
    assert("Sniff traffic to restore domain names for better routing."@[0] != "settings_sniffer_desc"@[0]);
    assert("内核管理"@[0] != "settings_kernel_mgmt"@[0]);
    assert("Kernel Management"@[0] != "settings_kernel_mgmt"@[0]);
    assert("检查更新"@[0] != "settings_check_update"@[0]);
    assert("Check Update"@[0] != "settings_check_update"@[0]);
    assert("检查中..."@[0] != "settings_checking"@[0]);
    assert("Checking..."@[0] != "settings_checking"@[0]);
    assert("最新版本: {0}"@[0] != "settings_latest_version"@[0]);
    assert("最新版本: {0}"@[6] == '{' && "最新版本: {0}"@[7] == '0' && "最新版本: {0}"@[8] == '}');
    assert("Latest Version: {0}"@[0] != "settings_latest_version"@[0]);
    assert("Latest Version: {0}"@[16] == '{' && "Latest Version: {0}"@[17] == '0' && "Latest Version: {0}"@[18] == '}');
    assert("未发现内核。"@[0] != "settings_no_kernels"@[0]);
    assert("No kernels found."@[0] != "settings_no_kernels"@[0]);
    assert("恢复出厂设置 (不可逆)"@[0] != "settings_factory_reset"@[0]);
    assert("Factory Reset (Irreversible)"@[0] != "settings_factory_reset"@[0]);
    assert("以管理员身份重启"@[0] != "settings_uac_request"@[0]);
    assert("Restart as Administrator"@[0] != "settings_uac_request"@[0]);
    assert("开启 TUN 模式需要管理员权限。点击下方按钮尝试提升权限。"@[0] != "settings_uac_desc"@[0]);
    assert("TUN mode requires administrative privileges. Click the button below to elevate."@[0] != "settings_uac_desc"@[0]);
    assert("下载"@[0] != "settings_download"@[0]);
    assert("Download"@[0] != "settings_download"@[0]);
    assert("删除"@[0] != "settings_delete"@[0]);
    assert("Delete"@[0] != "settings_delete"@[0]);
    assert("设为默认"@[0] != "settings_set_default"@[0]);
    assert("Set Default"@[0] != "settings_set_default"@[0]);
    assert("已安装"@[0] != "settings_installed"@[0]);
    assert("Already installed"@[0] != "settings_installed"@[0]);
    assert("有新版本可用"@[0] != "settings_available"@[0]);
    assert("New version available"@[0] != "settings_available"@[0]);
    assert("启动中..."@[0] != "status_starting"@[0]);
    assert("Starting..."@[0] != "status_starting"@[0]);
    assert("运行中"@[0] != "status_running"@[0]);
    assert("Running"@[0] != "status_running"@[0]);
    assert("已停止"@[0] != "status_stopped"@[0]);
    assert("Stopped"@[0] != "status_stopped"@[0]);
    assert("状态: {0}"@[0] != "status_label"@[0]);
    assert("状态: {0}"@[4] == '{' && "状态: {0}"@[5] == '0' && "状态: {0}"@[6] == '}');
    assert("Status: {0}"@[0] != "status_label"@[0]);
    assert("Status: {0}"@[8] == '{' && "Status: {0}"@[9] == '0' && "Status: {0}"@[10] == '}');
    assert("错误: {0}"@[0] != "error_label"@[0]);
    assert("错误: {0}"@[4] == '{' && "错误: {0}"@[5] == '0' && "错误: {0}"@[6] == '}');
    assert("Error: {0}"@[0] != "error_label"@[0]);
    assert("Error: {0}"@[7] == '{' && "Error: {0}"@[8] == '0' && "Error: {0}"@[9] == '}');
    assert("启动代理"@[0] != "start_proxy"@[0]);
    assert("Start Proxy"@[0] != "start_proxy"@[0]);
    assert("停止代理"@[0] != "stop_proxy"@[0]);
    assert("Stop Proxy"@[0] != "stop_proxy"@[0]);
    assert("系统代理 (System Proxy)"@[0] != "system_proxy"@[0]);
    assert("System Proxy"@[0] != "system_proxy"@[0]);
    assert("权限状态"@[0] != "admin_status"@[0]);
    assert("Admin Privileges"@[0] != "admin_status"@[0]);
    assert("🛡️ 已获得管理员权限 (WinTun 就绪)"@[0] != "admin_authorized"@[0]);
    assert("🛡️ Admin Authorized (WinTun Ready)"@[0] != "admin_authorized"@[0]);
    assert("⚠️ 未获得管理员权限 (无法开启 TUN)"@[0] != "admin_unauthorized"@[0]);
    assert("⚠️ Not Admin (TUN unavailable)"@[0] != "admin_unauthorized"@[0]);
    assert("开机自启动"@[0] != "autostart"@[0]);
    assert("Start on Boot"@[0] != "autostart"@[0]);
    assert("深色模式"@[0] != "dark_mode"@[0]);
    assert("Dark Mode"@[0] != "dark_mode"@[0]);
    assert("代理模式"@[0] != "proxy_mode"@[0]);
    assert("Proxy Mode"@[0] != "proxy_mode"@[0]);
    assert("规则模式"@[0] != "mode_rule"@[0]);
    assert("Rule"@[0] != "mode_rule"@[0]);
    assert("全局模式"@[0] != "mode_global"@[0]);
    assert("Global"@[0] != "mode_global"@[0]);
    assert("直连模式"@[0] != "mode_direct"@[0]);
    assert("Direct"@[0] != "mode_direct"@[0]);
    assert("脚本模式"@[0] != "mode_script"@[0]);
    assert("Script"@[0] != "mode_script"@[0]);
    assert("TUN 模式"@[0] != "tun_mode"@[0]);
    assert("TUN Mode"@[0] != "tun_mode"@[0]);
    assert("协议栈 (Stack)"@[0] != "tun_stack"@[0]);
    assert("Stack"@[0] != "tun_stack"@[0]);
    assert("自动路由 (Auto Route)"@[0] != "tun_auto_route"@[0]);
    assert("Auto Route"@[0] != "tun_auto_route"@[0]);
    assert("严格路由 (Strict Route)"@[0] != "tun_strict_route"@[0]);
    assert("Strict Route"@[0] != "tun_strict_route"@[0]);
    assert("实时流量"@[0] != "overview_traffic"@[0]);
    assert("REAL-TIME TRAFFIC"@[0] != "overview_traffic"@[0]);
    assert("核心状态"@[0] != "overview_core"@[0]);
    assert("CORE STATUS"@[0] != "overview_core"@[0]);
    assert("已选择 GLOBAL 节点"@[0] != "overview_selected_global"@[0]);
    assert("Selected from GLOBAL group"@[0] != "overview_selected_global"@[0]);
    assert("保存"@[0] != "btn_save"@[0]);
    assert("Save"@[0] != "btn_save"@[0]);
    assert("取消"@[0] != "btn_cancel"@[0]);
    assert("Cancel"@[0] != "btn_cancel"@[0]);
    assert("关闭全部"@[0] != "btn_close_all"@[0]);
    assert("Close All"@[0] != "btn_close_all"@[0]);
    assert("切换"@[0] != "btn_switch"@[0]);
    assert("Switch"@[0] != "btn_switch"@[0]);
    assert("更新"@[0] != "btn_update"@[0]);
    assert("Update"@[0] != "btn_update"@[0]);
    assert("错误"@[0] != "status_error"@[0]);
    assert("Error"@[0] != "status_error"@[0]);
    assert("保存中..."@[0] != "rules_saving"@[0]);
    assert("Saving..."@[0] != "rules_saving"@[0]);
    assert("已保存"@[0] != "rules_saved"@[0]);
    assert("Saved"@[0] != "rules_saved"@[0]);
    assert("保存规则"@[0] != "rules_save_btn"@[0]);
    assert("Save Rules"@[0] != "rules_save_btn"@[0]);
    assert("暂无规则"@[0] != "rules_empty"@[0]);
    assert("No rules"@[0] != "rules_empty"@[0]);
    assert("规则提供者 (JSON)"@[0] != "rules_rule_providers_json"@[0]);
    assert("Rule Providers (JSON)"@[0] != "rules_rule_providers_json"@[0]);
    assert("嗅探配置 (JSON)"@[0] != "rules_sniffer_json"@[0]);
    assert("Sniffer (JSON)"@[0] != "rules_sniffer_json"@[0]);
    assert("保存规则提供者"@[0] != "rules_save_rule_providers_btn"@[0]);
    assert("Save Rule Providers"@[0] != "rules_save_rule_providers_btn"@[0]);
    assert("保存嗅探配置"@[0] != "rules_save_sniffer_btn"@[0]);
    assert("Save Sniffer"@[0] != "rules_save_sniffer_btn"@[0]);
    assert("app_title"@.len() == 9);
    assert("nav_overview"@.len() == 12);
    assert("nav_overview"@[0] != "upload_speed"@[0]);
    assert("nav_overview"@[0] != "status_label"@[0]);
    assert("nav_profiles"@.len() == 12);
    assert("nav_profiles"@[0] != "upload_speed"@[0]);
    assert("nav_profiles"@[0] != "status_label"@[0]);
    assert("nav_proxies"@.len() == 11);
    assert("nav_proxies"@[0] != "error_label"@[0]);
    assert("nav_runtime"@.len() == 11);
    assert("nav_runtime"@[0] != "error_label"@[0]);
    assert("nav_rules"@.len() == 9);
    assert("nav_dns"@.len() == 7);
    assert("nav_sync"@.len() == 8);
    assert("nav_settings"@.len() == 12);
    assert("nav_settings"@[0] != "upload_speed"@[0]);
    assert("nav_settings"@[0] != "status_label"@[0]);
    assert("sync_title"@.len() == 10);
    assert("sync_url"@.len() == 8);
    assert("sync_user"@.len() == 9);
    assert("sync_pass"@.len() == 9);
    assert("sync_upload"@.len() == 11);
    assert("sync_upload"@[0] != "error_label"@[0]);
    assert("sync_download"@.len() == 13);
    assert("dns_title"@.len() == 9);
    assert("dns_nameservers"@.len() == 15);
    assert("dns_fallback"@.len() == 12);
    assert("dns_fallback"@[0] != "upload_speed"@[0]);
    assert("dns_fallback"@[0] != "status_label"@[0]);
    assert("dns_save"@.len() == 8);
    assert("dns_add"@.len() == 7);
    assert("dns_add_fallback"@.len() == 16);
    assert("dns_flush_fakeip"@.len() == 16);
    assert("profiles_title"@.len() == 14);
    assert("profiles_title"@[0] != "download_speed"@[0]);
    assert("profiles_open_folder"@.len() == 20);
    assert("profiles_import_sub"@.len() == 19);
    assert("profiles_importing"@.len() == 18);
    assert("profiles_import_name_placeholder"@.len() == 32);
    assert("profiles_sub_url"@.len() == 16);
    assert("profiles_import_btn"@.len() == 19);
    assert("proxies_title"@.len() == 13);
    assert("proxies_sort_delay"@.len() == 18);
    assert("rules_title"@.len() == 11);
    assert("rules_title"@[0] != "error_label"@[0]);
    assert("rules_filter_placeholder"@.len() == 24);
    assert("rules_proxy_providers"@.len() == 21);
    assert("rules_rule_providers"@.len() == 20);
    assert("rules_no_providers"@.len() == 18);
    assert("rules_add_custom"@.len() == 16);
    assert("rules_type"@.len() == 10);
    assert("rules_payload"@.len() == 13);
    assert("rules_target"@.len() == 12);
    assert("rules_target"@[0] != "upload_speed"@[0]);
    assert("rules_target"@[0] != "status_label"@[0]);
    assert("rules_add_btn"@.len() == 13);
    assert("refresh"@.len() == 7);
    assert("loading_profiles"@.len() == 16);
    assert("no_profiles"@.len() == 11);
    assert("no_profiles"@[0] != "error_label"@[0]);
    assert("active_tag"@.len() == 10);
    assert("use"@.len() == 3);
    assert("edit"@.len() == 4);
    assert("runtime_title"@.len() == 13);
    assert("runtime_system_logs"@.len() == 19);
    assert("proxy_not_running"@.len() == 17);
    assert("waiting_traffic"@.len() == 15);
    assert("settings_title"@.len() == 14);
    assert("settings_title"@[0] != "download_speed"@[0]);
    assert("settings_system_integration"@.len() == 27);
    assert("settings_sniffer"@.len() == 16);
    assert("settings_sniffer_desc"@.len() == 21);
    assert("settings_kernel_mgmt"@.len() == 20);
    assert("settings_check_update"@.len() == 21);
    assert("settings_checking"@.len() == 17);
    assert("settings_no_kernels"@.len() == 19);
    assert("settings_factory_reset"@.len() == 22);
    assert("settings_uac_request"@.len() == 20);
    assert("settings_uac_desc"@.len() == 17);
    assert("settings_download"@.len() == 17);
    assert("settings_delete"@.len() == 15);
    assert("settings_set_default"@.len() == 20);
    assert("settings_installed"@.len() == 18);
    assert("settings_available"@.len() == 18);
    assert("status_starting"@.len() == 15);
    assert("status_running"@.len() == 14);
    assert("status_running"@[0] != "download_speed"@[0]);
    assert("status_stopped"@.len() == 14);
    assert("status_stopped"@[0] != "download_speed"@[0]);
    assert("start_proxy"@.len() == 11);
    assert("start_proxy"@[0] != "error_label"@[0]);
    assert("stop_proxy"@.len() == 10);
    assert("system_proxy"@.len() == 12);
    assert("system_proxy"@[0] != "upload_speed"@[0]);
    assert("system_proxy"@[1] != "status_label"@[1]);
    assert("admin_status"@.len() == 12);
    assert("admin_status"@[0] != "upload_speed"@[0]);
    assert("admin_status"@[0] != "status_label"@[0]);
    assert("admin_authorized"@.len() == 16);
    assert("admin_unauthorized"@.len() == 18);
    assert("autostart"@.len() == 9);
    assert("dark_mode"@.len() == 9);
    assert("proxy_mode"@.len() == 10);
    assert("mode_rule"@.len() == 9);
    assert("mode_global"@.len() == 11);
    assert("mode_global"@[0] != "error_label"@[0]);
    assert("mode_direct"@.len() == 11);
    assert("mode_direct"@[0] != "error_label"@[0]);
    assert("mode_script"@.len() == 11);
    assert("mode_script"@[0] != "error_label"@[0]);
    assert("tun_mode"@.len() == 8);
    assert("tun_stack"@.len() == 9);
    assert("tun_auto_route"@.len() == 14);
    assert("tun_auto_route"@[0] != "download_speed"@[0]);
    assert("tun_strict_route"@.len() == 16);
    assert("overview_traffic"@.len() == 16);
    assert("overview_core"@.len() == 13);
    assert("overview_selected_global"@.len() == 24);
    assert("btn_save"@.len() == 8);
    assert("btn_cancel"@.len() == 10);
    assert("btn_close_all"@.len() == 13);
    assert("btn_switch"@.len() == 10);
    assert("btn_update"@.len() == 10);
    assert("status_error"@.len() == 12);
    assert("status_error"@[0] != "upload_speed"@[0]);
    assert("status_error"@[7] != "status_label"@[7]);
    assert("rules_saving"@.len() == 12);
    assert("rules_saving"@[0] != "upload_speed"@[0]);
    assert("rules_saving"@[0] != "status_label"@[0]);
    assert("rules_saved"@.len() == 11);
    assert("rules_saved"@[0] != "error_label"@[0]);
    assert("rules_save_btn"@.len() == 14);
    assert("rules_save_btn"@[0] != "download_speed"@[0]);
    assert("rules_empty"@.len() == 11);
    assert("rules_empty"@[0] != "error_label"@[0]);
    assert("rules_rule_providers_json"@.len() == 25);
    assert("rules_sniffer_json"@.len() == 18);
    assert("rules_save_rule_providers_btn"@.len() == 29);
    assert("rules_save_sniffer_btn"@.len() == 22);
    assert("upload_speed"@.len() == 12);
    assert("download_speed"@.len() == 14);
    assert("settings_latest_version"@.len() == 23);
    assert("status_label"@.len() == 12);
    assert("error_label"@.len() == 11);
}

/// Looking a key up in two tables that agree entry by entry: the texts are
/// both the key itself or neither, both hold a placeholder or neither, and
/// for a key with an entry they hold one exactly where it is a placeholder
/// key.
proof fn lemma_lookup_agrees(a: Seq<(Seq<char>, Seq<char>)>, b: Seq<(Seq<char>, Seq<char>)>, key: Seq<char>)
    requires
        a.len() == b.len(),
        forall|i: int| 0 <= i < a.len() ==> #[trigger] entries_agree(a[i], b[i]),
    ensures
        lookup(a, key) == key <==> lookup(b, key) == key,
        lookup(a, key) == key <==> !table_keys(a).contains(key),
        has_placeholder(lookup(a, key)) == has_placeholder(lookup(b, key)),
        table_keys(a).contains(key) ==> (has_placeholder(lookup(a, key)) <==> is_placeholder_key(key)),
    decreases a.len(),
{
    if a.len() > 0 {
        assert(entries_agree(a[0], b[0]));
        let (ra, rb) = (a.drop_first(), b.drop_first());
        assert forall|i: int| 0 <= i < ra.len() implies #[trigger] entries_agree(ra[i], rb[i]) by {
            assert(entries_agree(a[i + 1], b[i + 1]));
        }
        lemma_lookup_agrees(ra, rb, key);
        assert(table_keys(a) =~= seq![a[0].0] + table_keys(ra));
        if a[0].0 != key {
            assert(table_keys(a).contains(key) ==> table_keys(ra).contains(key)) by {
                if table_keys(a).contains(key) {
                    let j = choose|j: int| 0 <= j < table_keys(a).len() && table_keys(a)[j] == key;
                    assert(table_keys(ra)[j - 1] == key);
                }
            }
            assert(table_keys(ra).contains(key) ==> table_keys(a).contains(key)) by {
                if table_keys(ra).contains(key) {
                    let j = choose|j: int| 0 <= j < table_keys(ra).len() && table_keys(ra)[j] == key;
                    assert(table_keys(a)[j + 1] == key);
                }
            }
        } else {
            assert(table_keys(a)[0] == key);
        }
    } else {
        assert(table_keys(a).len() == 0);
    }
}

/// The two languages agree on every key: the English text is the key itself
/// exactly when the Chinese one is, which is exactly when the key has no
/// entry; the English text holds the placeholder "{0}" exactly when the
/// Chinese one does, which for a key with an entry is exactly where it is one
/// of the placeholder keys.
pub proof fn law_languages_agree_on_every_key(key: Seq<char>)
    ensures
        lookup(en_table(), key) == key <==> lookup(zh_cn_table(), key) == key,
        lookup(zh_cn_table(), key) == key <==> !table_keys(zh_cn_table()).contains(key),
        has_placeholder(lookup(en_table(), key)) <==> has_placeholder(lookup(zh_cn_table(), key)),
        table_keys(zh_cn_table()).contains(key) ==> (has_placeholder(lookup(zh_cn_table(), key))
            <==> is_placeholder_key(key)),
{
    lemma_tables_agree_entrywise();
    lemma_lookup_agrees(zh_cn_table(), en_table(), key);
}

} // verus!
