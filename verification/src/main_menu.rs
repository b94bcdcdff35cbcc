//! The console's menu tree: the main menu and each thematic submenu, as
//! plain data.  Rendering and navigation live with the application.

use vstd::prelude::*;

verus! {

/// One menu entry.
#[derive(Clone)]
pub struct MainMenuItem {
    pub id: usize,
    pub label: &'static str,
    pub category: MainMenuCategory,
    pub action: MainMenuAction,
}

/// The theme a menu entry belongs to.
#[derive(Debug, Clone, Copy, PartialEq, Eq, Structural)]
pub enum MainMenuCategory {
    Services,
    IPXE,
    Clients,
    VMs,
    Configuration,
    Monitoring,
    System,
    Containers,
    Host,
}

/// What choosing a menu entry does.
#[derive(Debug, Clone, Copy, PartialEq, Eq, Structural)]
pub enum MainMenuAction {
    ServicesTheme,
    IPXETheme,
    ClientsTheme,
    VMsTheme,
    ConfigurationTheme,
    MonitoringTheme,
    SystemTheme,
    ServiceDHCP,
    ServiceDNS,
    ServiceTFTP,
    ServiceHTTP,
    ServiceStatus,
    ServiceStart,
    ServiceStop,
    ServiceRestart,
    IPXEMenu,
    IPXEEntries,
    IPXEGenerate,
    IPXEConfig,
    ClientsLeases,
    ClientsConnected,
    ClientsHistory,
    VMsList,
    VMsCreate,
    VMsManage,
    VMsOverlays,
    ConfigView,
    ConfigEdit,
    ConfigNetwork,
    ConfigSecurity,
    MonitoringLogs,
    MonitoringMetrics,
    MonitoringHealth,
    MonitoringDashboard,
    SystemInfo,
    SystemServices,
    SystemProcesses,
    DeployLXC,
    DeployStatus,
    LXCManage,
    LXCStart,
    LXCStop,
    LXCRestart,
    LXCLogs,
    LXCShell,
    LXCStats,
    LXCRmdbStart,
    LXCRmdbStop,
    LXCRmdbRestart,
    LXCRmdbLogs,
    LXCConfig,
    LXCDestroy,
    ContainersTheme,
    ContainersList,
    ContainersStart,
    ContainersStop,
    ContainersRestart,
    ContainersAdd,
    ContainersDestroy,
    ContainersReinstall,
    HostTheme,
    HostInstall,
    HostStatus,
    HostStart,
    HostStop,
    HostRestart,
    HostEnable,
    HostDisable,
    HostUninstall,
    InstallMenu,
    InstallOnHost,
    InstallInContainer,
    InstallInVM,
    Quit,
}

/// The top-level menu, in display order; the last entry quits.
pub fn get_main_menu() -> (v: Vec<MainMenuItem>)
    ensures
        v@.len() == 11,
        forall|i: int| 0 <= i < v@.len() ==> #[trigger] v@[i].id == i,
        v@[0].label@ == "Services"@,
        v@[1].label@ == "IPXE"@,
        v@[2].label@ == "Clients"@,
        v@[3].label@ == "VMs"@,
        v@[4].label@ == "Configuration"@,
        v@[5].label@ == "Monitoring"@,
        v@[6].label@ == "Système"@,
        v@[7].label@ == "Containers LXC"@,
        v@[8].label@ == "RMDB Hôte"@,
        v@[9].label@ == "Installation RMDB"@,
        v@[10].label@ == "Quitter"@,
        v@[0].action is ServicesTheme,
        v@[1].action is IPXETheme,
        v@[2].action is ClientsTheme,
        v@[3].action is VMsTheme,
        v@[4].action is ConfigurationTheme,
        v@[5].action is MonitoringTheme,
        v@[6].action is SystemTheme,
        v@[7].action is ContainersTheme,
        v@[8].action is HostTheme,
        v@[9].action is InstallMenu,
        v@[10].action is Quit,
{
    let mut v: Vec<MainMenuItem> = Vec::new();
    v.push(MainMenuItem { id: 0, label: "Services", category: MainMenuCategory::Services, action: MainMenuAction::ServicesTheme });
    v.push(MainMenuItem { id: 1, label: "IPXE", category: MainMenuCategory::IPXE, action: MainMenuAction::IPXETheme });
    v.push(MainMenuItem { id: 2, label: "Clients", category: MainMenuCategory::Clients, action: MainMenuAction::ClientsTheme });
    v.push(MainMenuItem { id: 3, label: "VMs", category: MainMenuCategory::VMs, action: MainMenuAction::VMsTheme });
    v.push(MainMenuItem { id: 4, label: "Configuration", category: MainMenuCategory::Configuration, action: MainMenuAction::ConfigurationTheme });
    v.push(MainMenuItem { id: 5, label: "Monitoring", category: MainMenuCategory::Monitoring, action: MainMenuAction::MonitoringTheme });
    v.push(MainMenuItem { id: 6, label: "Système", category: MainMenuCategory::System, action: MainMenuAction::SystemTheme });
    v.push(MainMenuItem { id: 7, label: "Containers LXC", category: MainMenuCategory::Containers, action: MainMenuAction::ContainersTheme });
    v.push(MainMenuItem { id: 8, label: "RMDB Hôte", category: MainMenuCategory::Host, action: MainMenuAction::HostTheme });
    v.push(MainMenuItem { id: 9, label: "Installation RMDB", category: MainMenuCategory::System, action: MainMenuAction::InstallMenu });
    v.push(MainMenuItem { id: 10, label: "Quitter", category: MainMenuCategory::System, action: MainMenuAction::Quit });
    v
}

/// The services submenu.
pub fn get_services_submenu() -> (v: Vec<MainMenuItem>)
    ensures
        v@.len() == 9,
        forall|i: int| 0 <= i < v@.len() ==> #[trigger] v@[i].id == i,
        forall|i: int| 0 <= i < v@.len() ==> #[trigger] v@[i].category is Services,
        v@[0].action is ServiceStatus,
        v@[1].action is ServiceDHCP,
        v@[2].action is ServiceDNS,
        v@[3].action is ServiceTFTP,
        v@[4].action is ServiceHTTP,
        v@[5].action is ServiceStart,
        v@[6].action is ServiceStop,
        v@[7].action is ServiceRestart,
        v@[8].action is ServicesTheme,
{
    let mut v: Vec<MainMenuItem> = Vec::new();
    v.push(MainMenuItem { id: 0, label: "Statut des Services", category: MainMenuCategory::Services, action: MainMenuAction::ServiceStatus });
    v.push(MainMenuItem { id: 1, label: "Service DHCP", category: MainMenuCategory::Services, action: MainMenuAction::ServiceDHCP });
    v.push(MainMenuItem { id: 2, label: "Service DNS", category: MainMenuCategory::Services, action: MainMenuAction::ServiceDNS });
    v.push(MainMenuItem { id: 3, label: "Service TFTP", category: MainMenuCategory::Services, action: MainMenuAction::ServiceTFTP });
    v.push(MainMenuItem { id: 4, label: "Service HTTP/HTTPS", category: MainMenuCategory::Services, action: MainMenuAction::ServiceHTTP });
    v.push(MainMenuItem { id: 5, label: "Démarrer Services", category: MainMenuCategory::Services, action: MainMenuAction::ServiceStart });
    v.push(MainMenuItem { id: 6, label: "Arrêter Services", category: MainMenuCategory::Services, action: MainMenuAction::ServiceStop });
    v.push(MainMenuItem { id: 7, label: "Redémarrer Services", category: MainMenuCategory::Services, action: MainMenuAction::ServiceRestart });
    v.push(MainMenuItem { id: 8, label: "Retour", category: MainMenuCategory::Services, action: MainMenuAction::ServicesTheme });
    v
}

/// The netboot-menu submenu.
pub fn get_ipxe_submenu() -> (v: Vec<MainMenuItem>)
    ensures
        v@.len() == 5,
        forall|i: int| 0 <= i < v@.len() ==> #[trigger] v@[i].id == i,
        forall|i: int| 0 <= i < v@.len() ==> #[trigger] v@[i].category is IPXE,
        v@[0].action is IPXEMenu,
        v@[1].action is IPXEEntries,
        v@[2].action is IPXEGenerate,
        v@[3].action is IPXEConfig,
        v@[4].action is IPXETheme,
{
    let mut v: Vec<MainMenuItem> = Vec::new();
    v.push(MainMenuItem { id: 0, label: "Menu iPXE", category: MainMenuCategory::IPXE, action: MainMenuAction::IPXEMenu });
    v.push(MainMenuItem { id: 1, label: "Entrées de Menu", category: MainMenuCategory::IPXE, action: MainMenuAction::IPXEEntries });
    v.push(MainMenuItem { id: 2, label: "Générer Menu", category: MainMenuCategory::IPXE, action: MainMenuAction::IPXEGenerate });
    v.push(MainMenuItem { id: 3, label: "Configuration iPXE", category: MainMenuCategory::IPXE, action: MainMenuAction::IPXEConfig });
    v.push(MainMenuItem { id: 4, label: "Retour", category: MainMenuCategory::IPXE, action: MainMenuAction::IPXETheme });
    v
}

/// The clients submenu.
pub fn get_clients_submenu() -> (v: Vec<MainMenuItem>)
    ensures
        v@.len() == 4,
        forall|i: int| 0 <= i < v@.len() ==> #[trigger] v@[i].id == i,
        forall|i: int| 0 <= i < v@.len() ==> #[trigger] v@[i].category is Clients,
        v@[0].action is ClientsLeases,
        v@[1].action is ClientsConnected,
        v@[2].action is ClientsHistory,
        v@[3].action is ClientsTheme,
{
    let mut v: Vec<MainMenuItem> = Vec::new();
    v.push(MainMenuItem { id: 0, label: "Leases DHCP", category: MainMenuCategory::Clients, action: MainMenuAction::ClientsLeases });
    v.push(MainMenuItem { id: 1, label: "Clients Connectés", category: MainMenuCategory::Clients, action: MainMenuAction::ClientsConnected });
    v.push(MainMenuItem { id: 2, label: "Historique", category: MainMenuCategory::Clients, action: MainMenuAction::ClientsHistory });
    v.push(MainMenuItem { id: 3, label: "Retour", category: MainMenuCategory::Clients, action: MainMenuAction::ClientsTheme });
    v
}

/// The virtual-machines submenu.
pub fn get_vms_submenu() -> (v: Vec<MainMenuItem>)
    ensures
        v@.len() == 5,
        forall|i: int| 0 <= i < v@.len() ==> #[trigger] v@[i].id == i,
        forall|i: int| 0 <= i < v@.len() ==> #[trigger] v@[i].category is VMs,
        v@[0].action is VMsList,
        v@[1].action is VMsCreate,
        v@[2].action is VMsManage,
        v@[3].action is VMsOverlays,
        v@[4].action is VMsTheme,
{
    let mut v: Vec<MainMenuItem> = Vec::new();
    v.push(MainMenuItem { id: 0, label: "Liste des VMs", category: MainMenuCategory::VMs, action: MainMenuAction::VMsList });
    v.push(MainMenuItem { id: 1, label: "Créer VM", category: MainMenuCategory::VMs, action: MainMenuAction::VMsCreate });
    v.push(MainMenuItem { id: 2, label: "Gérer VM", category: MainMenuCategory::VMs, action: MainMenuAction::VMsManage });
    v.push(MainMenuItem { id: 3, label: "Overlays", category: MainMenuCategory::VMs, action: MainMenuAction::VMsOverlays });
    v.push(MainMenuItem { id: 4, label: "Retour", category: MainMenuCategory::VMs, action: MainMenuAction::VMsTheme });
    v
}

/// The configuration submenu.
pub fn get_configuration_submenu() -> (v: Vec<MainMenuItem>)
    ensures
        v@.len() == 5,
        forall|i: int| 0 <= i < v@.len() ==> #[trigger] v@[i].id == i,
        forall|i: int| 0 <= i < v@.len() ==> #[trigger] v@[i].category is Configuration,
        v@[0].action is ConfigView,
        v@[1].action is ConfigEdit,
        v@[2].action is ConfigNetwork,
        v@[3].action is ConfigSecurity,
        v@[4].action is ConfigurationTheme,
{
    let mut v: Vec<MainMenuItem> = Vec::new();
    v.push(MainMenuItem { id: 0, label: "Voir Configuration", category: MainMenuCategory::Configuration, action: MainMenuAction::ConfigView });
    v.push(MainMenuItem { id: 1, label: "Éditer Configuration", category: MainMenuCategory::Configuration, action: MainMenuAction::ConfigEdit });
    v.push(MainMenuItem { id: 2, label: "Configuration Réseau", category: MainMenuCategory::Configuration, action: MainMenuAction::ConfigNetwork });
    v.push(MainMenuItem { id: 3, label: "Configuration Sécurité", category: MainMenuCategory::Configuration, action: MainMenuAction::ConfigSecurity });
    v.push(MainMenuItem { id: 4, label: "Retour", category: MainMenuCategory::Configuration, action: MainMenuAction::ConfigurationTheme });
    v
}

/// The monitoring submenu.
pub fn get_monitoring_submenu() -> (v: Vec<MainMenuItem>)
    ensures
        v@.len() == 5,
        forall|i: int| 0 <= i < v@.len() ==> #[trigger] v@[i].id == i,
        forall|i: int| 0 <= i < v@.len() ==> #[trigger] v@[i].category is Monitoring,
        v@[0].action is MonitoringLogs,
        v@[1].action is MonitoringMetrics,
        v@[2].action is MonitoringHealth,
        v@[3].action is MonitoringDashboard,
        v@[4].action is MonitoringTheme,
{
    let mut v: Vec<MainMenuItem> = Vec::new();
    v.push(MainMenuItem { id: 0, label: "Journaux", category: MainMenuCategory::Monitoring, action: MainMenuAction::MonitoringLogs });
    v.push(MainMenuItem { id: 1, label: "Métriques", category: MainMenuCategory::Monitoring, action: MainMenuAction::MonitoringMetrics });
    v.push(MainMenuItem { id: 2, label: "Santé du Système", category: MainMenuCategory::Monitoring, action: MainMenuAction::MonitoringHealth });
    v.push(MainMenuItem { id: 3, label: "Dashboard", category: MainMenuCategory::Monitoring, action: MainMenuAction::MonitoringDashboard });
    v.push(MainMenuItem { id: 4, label: "Retour", category: MainMenuCategory::Monitoring, action: MainMenuAction::MonitoringTheme });
    v
}

/// The system submenu.
pub fn get_system_submenu() -> (v: Vec<MainMenuItem>)
    ensures
        v@.len() == 4,
        forall|i: int| 0 <= i < v@.len() ==> #[trigger] v@[i].id == i,
        forall|i: int| 0 <= i < v@.len() ==> #[trigger] v@[i].category is System,
        v@[0].action is SystemInfo,
        v@[1].action is SystemServices,
        v@[2].action is SystemProcesses,
        v@[3].action is SystemTheme,
{
    let mut v: Vec<MainMenuItem> = Vec::new();
    v.push(MainMenuItem { id: 0, label: "Informations Système", category: MainMenuCategory::System, action: MainMenuAction::SystemInfo });
    v.push(MainMenuItem { id: 1, label: "Services Système", category: MainMenuCategory::System, action: MainMenuAction::SystemServices });
    v.push(MainMenuItem { id: 2, label: "Processus", category: MainMenuCategory::System, action: MainMenuAction::SystemProcesses });
    v.push(MainMenuItem { id: 3, label: "Retour", category: MainMenuCategory::System, action: MainMenuAction::SystemTheme });
    v
}

/// The submenu for managing the dedicated server container.
pub fn get_lxc_manage_submenu() -> (v: Vec<MainMenuItem>)
    ensures
        v@.len() == 15,
        forall|i: int| 0 <= i < v@.len() ==> #[trigger] v@[i].id == i,
        v@[0].action is DeployStatus,
        v@[1].action is LXCStart,
        v@[2].action is LXCStop,
        v@[3].action is LXCRestart,
        v@[4].action is LXCLogs,
        v@[5].action is LXCShell,
        v@[6].action is LXCStats,
        v@[7].action is LXCConfig,
        v@[8].action is SystemInfo,
        v@[9].action is LXCRmdbStart,
        v@[10].action is LXCRmdbStop,
        v@[11].action is LXCRmdbRestart,
        v@[12].action is LXCRmdbLogs,
        v@[13].action is LXCDestroy,
        v@[14].action is SystemTheme,
{
    let mut v: Vec<MainMenuItem> = Vec::new();
    v.push(MainMenuItem { id: 0, label: "Statut du Container", category: MainMenuCategory::System, action: MainMenuAction::DeployStatus });
    v.push(MainMenuItem { id: 1, label: "Démarrer Container", category: MainMenuCategory::System, action: MainMenuAction::LXCStart });
    v.push(MainMenuItem { id: 2, label: "Arrêter Container", category: MainMenuCategory::System, action: MainMenuAction::LXCStop });
    v.push(MainMenuItem { id: 3, label: "Redémarrer Container", category: MainMenuCategory::System, action: MainMenuAction::LXCRestart });
    v.push(MainMenuItem { id: 4, label: "Logs du Container", category: MainMenuCategory::System, action: MainMenuAction::LXCLogs });
    v.push(MainMenuItem { id: 5, label: "Accès Shell", category: MainMenuCategory::System, action: MainMenuAction::LXCShell });
    v.push(MainMenuItem { id: 6, label: "Statistiques", category: MainMenuCategory::System, action: MainMenuAction::LXCStats });
    v.push(MainMenuItem { id: 7, label: "Configuration", category: MainMenuCategory::System, action: MainMenuAction::LXCConfig });
    v.push(MainMenuItem { id: 8, label: "--- Gestion RMDB ---", category: MainMenuCategory::System, action: MainMenuAction::SystemInfo });
    v.push(MainMenuItem { id: 9, label: "Démarrer RMDB", category: MainMenuCategory::System, action: MainMenuAction::LXCRmdbStart });
    v.push(MainMenuItem { id: 10, label: "Arrêter RMDB", category: MainMenuCategory::System, action: MainMenuAction::LXCRmdbStop });
    v.push(MainMenuItem { id: 11, label: "Redémarrer RMDB", category: MainMenuCategory::System, action: MainMenuAction::LXCRmdbRestart });
    v.push(MainMenuItem { id: 12, label: "Logs RMDB", category: MainMenuCategory::System, action: MainMenuAction::LXCRmdbLogs });
    v.push(MainMenuItem { id: 13, label: "Supprimer Container", category: MainMenuCategory::System, action: MainMenuAction::LXCDestroy });
    v.push(MainMenuItem { id: 14, label: "Retour", category: MainMenuCategory::System, action: MainMenuAction::SystemTheme });
    v
}

/// The general container-management submenu.
pub fn get_containers_submenu() -> (v: Vec<MainMenuItem>)
    ensures
        v@.len() == 8,
        forall|i: int| 0 <= i < v@.len() ==> #[trigger] v@[i].id == i,
        forall|i: int| 0 <= i < v@.len() ==> #[trigger] v@[i].category is Containers,
        v@[0].action is ContainersList,
        v@[1].action is ContainersStart,
        v@[2].action is ContainersRestart,
        v@[3].action is ContainersStop,
        v@[4].action is ContainersAdd,
        v@[5].action is ContainersDestroy,
        v@[6].action is ContainersReinstall,
        v@[7].action is ContainersTheme,
{
    let mut v: Vec<MainMenuItem> = Vec::new();
    v.push(MainMenuItem { id: 0, label: "Lister", category: MainMenuCategory::Containers, action: MainMenuAction::ContainersList });
    v.push(MainMenuItem { id: 1, label: "Démarrer", category: MainMenuCategory::Containers, action: MainMenuAction::ContainersStart });
    v.push(MainMenuItem { id: 2, label: "Redémarrer", category: MainMenuCategory::Containers, action: MainMenuAction::ContainersRestart });
    v.push(MainMenuItem { id: 3, label: "Stopper", category: MainMenuCategory::Containers, action: MainMenuAction::ContainersStop });
    v.push(MainMenuItem { id: 4, label: "Ajouter", category: MainMenuCategory::Containers, action: MainMenuAction::ContainersAdd });
    v.push(MainMenuItem { id: 5, label: "Supprimer", category: MainMenuCategory::Containers, action: MainMenuAction::ContainersDestroy });
    v.push(MainMenuItem { id: 6, label: "Réinstaller", category: MainMenuCategory::Containers, action: MainMenuAction::ContainersReinstall });
    v.push(MainMenuItem { id: 7, label: "Retour", category: MainMenuCategory::Containers, action: MainMenuAction::ContainersTheme });
    v
}

/// The host-deployment submenu.
pub fn get_host_submenu() -> (v: Vec<MainMenuItem>)
    ensures
        v@.len() == 9,
        forall|i: int| 0 <= i < v@.len() ==> #[trigger] v@[i].id == i,
        forall|i: int| 0 <= i < v@.len() ==> #[trigger] v@[i].category is Host,
        v@[0].action is HostInstall,
        v@[1].action is HostStatus,
        v@[2].action is HostStart,
        v@[3].action is HostStop,
        v@[4].action is HostRestart,
        v@[5].action is HostEnable,
        v@[6].action is HostDisable,
        v@[7].action is HostUninstall,
        v@[8].action is HostTheme,
{
    let mut v: Vec<MainMenuItem> = Vec::new();
    v.push(MainMenuItem { id: 0, label: "Installer RMDB", category: MainMenuCategory::Host, action: MainMenuAction::HostInstall });
    v.push(MainMenuItem { id: 1, label: "Statut", category: MainMenuCategory::Host, action: MainMenuAction::HostStatus });
    v.push(MainMenuItem { id: 2, label: "Démarrer", category: MainMenuCategory::Host, action: MainMenuAction::HostStart });
    v.push(MainMenuItem { id: 3, label: "Arrêter", category: MainMenuCategory::Host, action: MainMenuAction::HostStop });
    v.push(MainMenuItem { id: 4, label: "Redémarrer", category: MainMenuCategory::Host, action: MainMenuAction::HostRestart });
    v.push(MainMenuItem { id: 5, label: "Activer au démarrage", category: MainMenuCategory::Host, action: MainMenuAction::HostEnable });
    v.push(MainMenuItem { id: 6, label: "Désactiver au démarrage", category: MainMenuCategory::Host, action: MainMenuAction::HostDisable });
    v.push(MainMenuItem { id: 7, label: "Désinstaller", category: MainMenuCategory::Host, action: MainMenuAction::HostUninstall });
    v.push(MainMenuItem { id: 8, label: "Retour", category: MainMenuCategory::Host, action: MainMenuAction::HostTheme });
    v
}

} // verus!
