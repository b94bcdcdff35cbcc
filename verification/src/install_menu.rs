//! The installation menu: choosing what is installed and how it will be
//! used.

use vstd::prelude::*;
use crate::installer::InstallationMode;

verus! {

/// One entry of the installation menu.
#[derive(Clone)]
pub struct InstallMenuItem {
    pub id: usize,
    pub label: &'static str,
    pub action: InstallMenuAction,
}

/// What choosing an installation-menu entry does.
#[derive(Debug, Clone, Copy, PartialEq, Eq, Structural)]
pub enum InstallMenuAction {
    SelectInstallationMode,
    InstallOnHost,
    InstallInContainer,
    InstallInVM,
    ConfigureInstallation,
    Back,
}

/// The installation menu, in display order.
pub fn get_install_menu() -> (v: Vec<InstallMenuItem>)
    ensures
        v@.len() == 6,
        forall|i: int| 0 <= i < v@.len() ==> #[trigger] v@[i].id == i,
        forall|i: int| 0 <= i < v@.len() ==> #[trigger] v@[i].label@.len() > 0,
        v@[0].label@ == "Sélectionner le mode d'utilisation"@,
        v@[1].label@ == "Installer RMDB sur le système hôte"@,
        v@[2].label@ == "Installer RMDB dans un container Alpine Linux"@,
        v@[3].label@ == "Installer RMDB dans une VM Rocky Linux"@,
        v@[4].label@ == "Configurer l'installation"@,
        v@[5].label@ == "Retour"@,
        v@[0].action is SelectInstallationMode,
        v@[1].action is InstallOnHost,
        v@[2].action is InstallInContainer,
        v@[3].action is InstallInVM,
        v@[4].action is ConfigureInstallation,
        v@[5].action is Back,
{
    let mut v: Vec<InstallMenuItem> = Vec::new();
    v.push(
        InstallMenuItem {
            id: 0,
            label: "Sélectionner le mode d'utilisation",
            action: InstallMenuAction::SelectInstallationMode,
        },
    );
    v.push(
        InstallMenuItem {
            id: 1,
            label: "Installer RMDB sur le système hôte",
            action: InstallMenuAction::InstallOnHost,
        },
    );
    v.push(
        InstallMenuItem {
            id: 2,
            label: "Installer RMDB dans un container Alpine Linux",
            action: InstallMenuAction::InstallInContainer,
        },
    );
    v.push(
        InstallMenuItem {
            id: 3,
            label: "Installer RMDB dans une VM Rocky Linux",
            action: InstallMenuAction::InstallInVM,
        },
    );
    v.push(
        InstallMenuItem {
            id: 4,
            label: "Configurer l'installation",
            action: InstallMenuAction::ConfigureInstallation,
        },
    );
    v.push(InstallMenuItem { id: 5, label: "Retour", action: InstallMenuAction::Back });
    proof {
        reveal_strlit("Sélectionner le mode d'utilisation");
        reveal_strlit("Installer RMDB sur le système hôte");
        reveal_strlit("Installer RMDB dans un container Alpine Linux");
        reveal_strlit("Installer RMDB dans une VM Rocky Linux");
        reveal_strlit("Configurer l'installation");
        reveal_strlit("Retour");
    }
    v
}

/// The usage-mode choices, in display order; each label is the mode's
/// display name.
pub fn get_mode_selection_menu() -> (v: Vec<(InstallationMode, &'static str)>)
    ensures
        v@.len() == 3,
        v@[0].0 is DesktopGUI,
        v@[1].0 is WebServer,
        v@[2].0 is TerminalTUI,
        v@[0].1@ == "Client graphique desktop (Mode normal)"@,
        v@[1].1@ == "Via le navigateur web (Mode serveur)"@,
        v@[2].1@ == "En terminal TUI (Mode avancé)"@,
{
    let mut v: Vec<(InstallationMode, &'static str)> = Vec::new();
    v.push((InstallationMode::DesktopGUI, "Client graphique desktop (Mode normal)"));
    v.push((InstallationMode::WebServer, "Via le navigateur web (Mode serveur)"));
    v.push((InstallationMode::TerminalTUI, "En terminal TUI (Mode avancé)"));
    v
}

} // verus!
