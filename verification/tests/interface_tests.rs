use rmdb::api_client::{APIClient, APIError};
use rmdb::ui::{Color, UI};
use rmdb::gui::{select_ui_type, GTKInstaller, UIType};
use rmdb::input::{InputReader, Key};
use rmdb::install_menu::{get_install_menu, get_mode_selection_menu, InstallMenuAction};
use rmdb::main_menu::{
    get_clients_submenu, get_configuration_submenu, get_containers_submenu, get_host_submenu,
    get_ipxe_submenu, get_lxc_manage_submenu, get_main_menu, get_monitoring_submenu,
    get_services_submenu, get_system_submenu, get_vms_submenu, MainMenuAction,
};
use rmdb::terminal::Terminal;

#[test]
fn test_input_reader_creation() {
    let _reader = InputReader::new();
    assert!(true);
}

#[test]
fn test_terminal_creation() {
    let term = Terminal::new();
    assert!(term.width > 0);
    assert!(term.height > 0);
}

#[test]
fn key_decoding() {
    assert_eq!(InputReader::decode_key(0x1b, Some(b'['), Some(b'A')), Key::Up);
    assert_eq!(InputReader::decode_key(0x1b, Some(b'['), Some(b'B')), Key::Down);
    assert_eq!(InputReader::decode_key(0x1b, Some(b'['), Some(b'C')), Key::Unknown);
    assert_eq!(InputReader::decode_key(0x1b, Some(b'x'), None), Key::Unknown);
    assert_eq!(InputReader::decode_key(0x1b, None, None), Key::Unknown);
    assert_eq!(InputReader::decode_key(b'\n', None, None), Key::Enter);
    assert_eq!(InputReader::decode_key(b'\r', None, None), Key::Enter);
    assert_eq!(InputReader::decode_key(b'q', None, None), Key::Quit);
    assert_eq!(InputReader::decode_key(3, None, None), Key::Quit);
    assert_eq!(InputReader::decode_key(0x7f, None, None), Key::Backspace);
    assert_eq!(InputReader::decode_key(0x08, None, None), Key::Backspace);
    assert_eq!(InputReader::decode_key(b' ', None, None), Key::Char(' '));
    assert_eq!(InputReader::decode_key(b'a', None, None), Key::Char('a'));
    assert_eq!(InputReader::decode_key(b'!', None, None), Key::Char('!'));
    assert_eq!(InputReader::decode_key(0x01, None, None), Key::Unknown);
}

#[test]
fn terminal_geometry() {
    let mut term = Terminal::new();
    assert!(term.is_valid_size());
    assert!(!term.is_optimal_size());
    term.update_size(100, 30);
    assert!(term.is_optimal_size());
    assert_eq!(term.width(), 100);
    assert_eq!(term.height(), 30);
    assert_eq!(term.get_box_dimensions(), (0, 0, 100, 30));
    assert_eq!(term.get_max_visible_items(), 20);

    term.update_size(0, 8);
    assert_eq!(term.get_box_dimensions(), (0, 0, 1, 8));
    assert_eq!(term.get_max_visible_items(), 5);

    term.update_size(80, 24);
    assert_eq!(term.calculate_required_height(10, 2, 1), 24);
    assert_eq!(term.calculate_required_height(30, 2, 1), 39);
}

#[test]
fn menus_are_complete_and_ordered() {
    let main = get_main_menu();
    assert_eq!(main.len(), 11);
    for (i, item) in main.iter().enumerate() {
        assert_eq!(item.id, i);
    }
    assert_eq!(main[0].label, "Services");
    assert!(matches!(main[10].action, MainMenuAction::Quit));

    assert_eq!(get_services_submenu().len(), 9);
    assert_eq!(get_ipxe_submenu().len(), 5);
    assert_eq!(get_clients_submenu().len(), 4);
    assert_eq!(get_vms_submenu().len(), 5);
    assert_eq!(get_configuration_submenu().len(), 5);
    assert_eq!(get_monitoring_submenu().len(), 5);
    assert_eq!(get_system_submenu().len(), 4);
    assert_eq!(get_lxc_manage_submenu().len(), 15);
    assert_eq!(get_containers_submenu().len(), 8);
    assert_eq!(get_host_submenu().len(), 9);
    assert!(matches!(
        get_containers_submenu()[0].action,
        MainMenuAction::ContainersList
    ));
    assert!(matches!(get_host_submenu()[8].action, MainMenuAction::HostTheme));
}

#[test]
fn install_menu_layout() {
    let menu = get_install_menu();
    assert_eq!(menu.len(), 6);
    assert!(matches!(menu[0].action, InstallMenuAction::SelectInstallationMode));
    assert!(matches!(menu[5].action, InstallMenuAction::Back));
    let modes = get_mode_selection_menu();
    assert_eq!(modes.len(), 3);
    for (mode, label) in &modes {
        assert_eq!(*label, mode.display_name());
    }
    assert_eq!(modes[2].1, "En terminal TUI (Mode avancé)");
}

#[test]
fn ui_type_selection() {
    assert_eq!(select_ui_type(true, true), UIType::GTK);
    assert_eq!(select_ui_type(true, false), UIType::TUI);
    assert_eq!(select_ui_type(false, true), UIType::TUI);
    let _ = GTKInstaller::new();
}

#[test]
fn api_client_url_handling() {
    let client = APIClient::new("http://192.168.1.10:8080///".to_string());
    assert_eq!(client.url_for("/api/vms"), "http://192.168.1.10:8080/api/vms");
    assert_eq!(client.auth_header(), None);
    let client = client.with_auth_token("tok-123".to_string());
    assert_eq!(client.auth_header(), Some("Bearer tok-123".to_string()));
    assert_eq!(client.url_for("/api/login"), "http://192.168.1.10:8080/api/login");
}

#[test]
fn api_endpoints() {
    assert_eq!(APIClient::vms_endpoint(None), "/api/vms");
    assert_eq!(APIClient::vms_endpoint(Some("boot")), "/api/vms?category=boot");
    assert_eq!(APIClient::vm_endpoint("v1"), "/api/vms/v1");
    assert_eq!(APIClient::vm_compress_endpoint("v1"), "/api/vms/v1/compress");
    assert_eq!(APIClient::vm_decompress_endpoint("v1"), "/api/vms/v1/decompress");
    assert_eq!(APIClient::overlay_endpoint("o1"), "/api/overlays/o1");
    assert_eq!(
        APIClient::overlay_by_mac_endpoint("aa:bb:cc:dd:ee:ff"),
        "/api/overlays/mac/aa:bb:cc:dd:ee:ff"
    );
}

#[test]
fn http_error_classification() {
    assert!(matches!(
        APIClient::classify_http_error(404, "missing".to_string()),
        APIError::NotFound(m) if m == "missing"
    ));
    assert!(matches!(
        APIClient::classify_http_error(401, "no".to_string()),
        APIError::AuthError(_)
    ));
    assert!(matches!(
        APIClient::classify_http_error(403, "no".to_string()),
        APIError::AuthError(_)
    ));
    assert!(matches!(
        APIClient::classify_http_error(500, "boom".to_string()),
        APIError::ServerError(_)
    ));
}

#[test]
fn null_logger_accepts_everything() {
    let l = rmdb::logger::NullLogger::new();
    l.info("a");
    l.warn("b");
    l.error("c");
    l.debug("d");
    l.step(1, 8, "e");
    l.command("f");
    l.command_output("out", "err", Some(0));
}

#[test]
fn ui_facade_follows_the_terminal() {
    let mut ui = UI::new();
    assert!(ui.is_valid_size());
    assert!(!ui.is_optimal_size());
    ui.update_terminal_size(120, 40);
    assert!(ui.is_optimal_size());
    assert_eq!(ui.get_box_dimensions(), (0, 0, 120, 40));
    assert_eq!(ui.get_max_visible_items(), 30);
    assert_ne!(Color::Error, Color::Warning);
}
