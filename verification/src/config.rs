//! Configuration data: the hub's address and the tree of menus and buttons.

use vstd::prelude::*;

verus! {

/// Main configuration for the Home Assistant integration.
#[derive(Debug, PartialEq, Eq)]
pub struct HomeAssistantConfig {
    /// WebSocket URL of the hub, e.g. `ws://192.168.0.1:8123/api/websocket`.
    pub url: String,
    /// Root menu.
    pub menu: HomeAssistantMenu,
}

/// A menu shown on the device.
#[derive(Debug, PartialEq, Eq)]
pub struct HomeAssistantMenu {
    /// Display name of the menu.
    pub name: String,
    /// Buttons of the menu, in display order.
    pub buttons: Vec<HomeAssistantButton>,
}

/// The kinds of button a menu can hold.
#[derive(Debug, PartialEq, Eq)]
pub enum HomeAssistantButton {
    /// A simple on/off switch.
    Switch { entity_id: String, name: String },
    /// An RGB light with colour control.
    RgbLight { entity_id: String, name: String },
    /// A submenu holding more buttons.
    Menu(HomeAssistantMenu),
}

/// Mathematical model of a [`HomeAssistantButton`].
pub enum ButtonView {
    Switch { entity_id: Seq<char>, name: Seq<char> },
    RgbLight { entity_id: Seq<char>, name: Seq<char> },
    Menu(MenuView),
}

/// Mathematical model of a [`HomeAssistantMenu`].
pub struct MenuView {
    pub name: Seq<char>,
    pub buttons: Seq<ButtonView>,
}

/// Mathematical model of a [`HomeAssistantConfig`].
pub struct ConfigView {
    pub url: Seq<char>,
    pub menu: MenuView,
}

impl View for HomeAssistantButton {
    type V = ButtonView;

    open spec fn view(&self) -> ButtonView
        decreases self,
    {
        match self {
            HomeAssistantButton::Switch { entity_id, name } => ButtonView::Switch {
                entity_id: entity_id@,
                name: name@,
            },
            HomeAssistantButton::RgbLight { entity_id, name } => ButtonView::RgbLight {
                entity_id: entity_id@,
                name: name@,
            },
            HomeAssistantButton::Menu(menu) => ButtonView::Menu(menu@),
        }
    }
}

impl View for HomeAssistantMenu {
    type V = MenuView;

    open spec fn view(&self) -> MenuView
        decreases self,
    {
        MenuView {
            name: self.name@,
            buttons: Seq::new(
                self.buttons@.len(),
                |i: int|
                    if 0 <= i < self.buttons@.len() {
                        self.buttons@[i]@
                    } else {
                        arbitrary()
                    },
            ),
        }
    }
}

impl View for HomeAssistantConfig {
    type V = ConfigView;

    open spec fn view(&self) -> ConfigView {
        ConfigView { url: self.url@, menu: self.menu@ }
    }
}

impl Clone for HomeAssistantButton {
    fn clone(&self) -> (res: Self)
        ensures
            res@ == self@,
        decreases self,
    {
        match self {
            HomeAssistantButton::Switch { entity_id, name } => HomeAssistantButton::Switch {
                entity_id: entity_id.clone(),
                name: name.clone(),
            },
            HomeAssistantButton::RgbLight { entity_id, name } => HomeAssistantButton::RgbLight {
                entity_id: entity_id.clone(),
                name: name.clone(),
            },
            HomeAssistantButton::Menu(menu) => HomeAssistantButton::Menu(menu.clone()),
        }
    }
}

impl Clone for HomeAssistantMenu {
    fn clone(&self) -> (res: Self)
        ensures
            res@ == self@,
        decreases self,
    {
        let mut buttons: Vec<HomeAssistantButton> = Vec::new();
        let mut i: usize = 0;
        while i < self.buttons.len()
            invariant
                i <= self.buttons.len(),
                buttons.len() == i,
                forall|j: int| 0 <= j < i ==> buttons@[j]@ == self.buttons@[j]@,
            decreases self.buttons.len() - i,
        {
            buttons.push(self.buttons[i].clone());
            i += 1;
        }
        let res = HomeAssistantMenu { name: self.name.clone(), buttons };
        assert(res@.buttons =~= self@.buttons);
        res
    }
}

impl Clone for HomeAssistantConfig {
    fn clone(&self) -> (res: Self)
        ensures
            res@ == self@,
    {
        HomeAssistantConfig { url: self.url.clone(), menu: self.menu.clone() }
    }
}

} // verus!
