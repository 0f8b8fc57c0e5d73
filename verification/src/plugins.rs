//! Screens of the device: what each button of a grid shows and does.
//!
//! A screen is described as a [`ButtonGrid`] of [`Widget`]s. The program
//! around this library turns each widget into a button of the device and
//! runs the requests that the widgets ask for.

pub mod grid;
pub mod rgb;

use crate::config::{
    ButtonView, HomeAssistantButton, HomeAssistantConfig, HomeAssistantMenu, MenuView,
};
use crate::hass::PersistentHassConnection;
use crate::plugins::grid::{out_of_bounds_message, ButtonGrid, GridView};
use crate::plugins::rgb::{RgbControllerPlugin, RgbPluginView};
use vstd::prelude::*;

verus! {

/// Pictures a button can carry.
#[derive(Debug, Clone, Copy, PartialEq, Eq, Structural)]
pub enum Icon {
    ToggleOff,
    ToggleOn,
    Lightbulb,
    Menu,
    ArrowBack,
}

/// The screen of a menu: its buttons, and where "Back" leads.
#[derive(Debug, PartialEq, Eq)]
pub struct HomeAssistantPlugin {
    /// The menu to display.
    pub menu: HomeAssistantMenu,
    /// The screen to return to when "Back" is pressed, if any.
    pub back_navigation: Option<Box<HomeAssistantPlugin>>,
}

/// Mathematical model of a [`HomeAssistantPlugin`].
pub struct PluginView {
    pub menu: MenuView,
    pub back_navigation: Option<Box<PluginView>>,
}

impl View for HomeAssistantPlugin {
    type V = PluginView;

    open spec fn view(&self) -> PluginView
        decreases self,
    {
        PluginView {
            menu: self.menu@,
            back_navigation: match self.back_navigation {
                Some(parent) => Some(Box::new((*parent).view())),
                None => None,
            },
        }
    }
}

impl Clone for HomeAssistantPlugin {
    fn clone(&self) -> (res: Self)
        ensures
            res@ == self@,
        decreases self,
    {
        HomeAssistantPlugin {
            menu: self.menu.clone(),
            back_navigation: match &self.back_navigation {
                Some(parent) => Some(Box::new((&**parent).clone())),
                None => None,
            },
        }
    }
}

/// What a screen and its buttons can reach while they work: the
/// configuration and the hub connection, each present or not.
pub struct PluginContext<'a> {
    pub config: Option<&'a HomeAssistantConfig>,
    pub hass: Option<&'a PersistentHassConnection>,
}

/// A request that a button makes of the hub: run `service` of `domain` on
/// the entity `entity_id`, for a light optionally with a colour given by
/// its red, green and blue parts.
#[derive(Debug, PartialEq, Eq)]
pub struct ServiceRequest {
    pub domain: String,
    pub service: String,
    pub entity_id: String,
    pub color: Option<(u8, u8, u8)>,
}

/// The message for a context without a configuration.
pub open spec fn missing_config_message() -> Seq<char> {
    "Failed to get HomeAssistantConfig"@
}

/// The message for a context without a hub connection.
pub open spec fn missing_connection_message() -> Seq<char> {
    "Failed to get PersistentHassConnection"@
}

/// The message for an entity that the cache does not know.
pub open spec fn missing_state_message() -> Seq<char> {
    "Failed to get state"@
}

/// The name of the service that switches an entity on or off.
pub open spec fn switch_service(on: bool) -> Seq<char> {
    if on {
        "turn_on"@
    } else {
        "turn_off"@
    }
}

/// Whether a toggle bound to the entity `entity_id` shows as active: the
/// cached state of the entity is `on`. Without a hub connection in the
/// context, or without a cached state of the entity, there is no answer.
pub fn toggle_state(context: &PluginContext, entity_id: &str) -> (res: Result<bool, String>)
    ensures
        match context.hass {
            None => res is Err && res->Err_0@ == missing_connection_message(),
            Some(hass) => if hass@.states.contains_key(entity_id@) {
                res == Ok::<bool, String>(hass@.states[entity_id@].state == "on"@)
            } else {
                res is Err && res->Err_0@ == missing_state_message()
            },
        },
{
    match context.hass {
        None => Err("Failed to get PersistentHassConnection".to_owned()),
        Some(hass) => match hass.get_state(entity_id) {
            None => Err("Failed to get state".to_owned()),
            Some(state) => {
                let on = "on".to_owned();
                Ok(state.state == on)
            },
        },
    }
}

/// The request that a press of a toggle makes: turn the entity `entity_id`
/// on or off, as `value` says, through the services of `domain`. Without a
/// hub connection in the context there is no request.
pub fn toggle_request(context: &PluginContext, domain: &str, entity_id: &str, value: bool) -> (res:
    Result<ServiceRequest, String>)
    ensures
        context.hass is None ==> res is Err && res->Err_0@ == missing_connection_message(),
        context.hass is Some ==> res is Ok && res->Ok_0.domain@ == domain@ && res->Ok_0.service@
            == switch_service(value) && res->Ok_0.entity_id@ == entity_id@ && res->Ok_0.color
            is None,
{
    match context.hass {
        None => Err("Failed to get PersistentHassConnection".to_owned()),
        Some(_) => Ok(
            ServiceRequest {
                domain: domain.to_owned(),
                service: if value {
                    "turn_on".to_owned()
                } else {
                    "turn_off".to_owned()
                },
                entity_id: entity_id.to_owned(),
                color: None,
            },
        ),
    }
}

/// The model of an optional parent screen.
pub open spec fn back_view(back: Option<Box<HomeAssistantPlugin>>) -> Option<PluginView> {
    match back {
        Some(parent) => Some((*parent).view()),
        None => None,
    }
}

/// Copies an optional parent screen.
pub fn clone_back(back: &Option<Box<HomeAssistantPlugin>>) -> (res: Option<
    Box<HomeAssistantPlugin>,
>)
    ensures
        back_view(res) == back_view(*back),
{
    match back {
        Some(parent) => Some(Box::new((&**parent).clone())),
        None => None,
    }
}

/// Where a navigation button leads.
#[derive(Debug, PartialEq, Eq)]
pub enum Destination {
    /// The screen of a menu.
    Menu(HomeAssistantPlugin),
    /// The colour picker of a light.
    Rgb(RgbControllerPlugin),
}

/// Mathematical model of a [`Destination`].
pub enum DestinationView {
    Menu(PluginView),
    Rgb(RgbPluginView),
}

impl View for Destination {
    type V = DestinationView;

    open spec fn view(&self) -> DestinationView {
        match self {
            Destination::Menu(plugin) => DestinationView::Menu(plugin@),
            Destination::Rgb(plugin) => DestinationView::Rgb(plugin@),
        }
    }
}

impl Clone for Destination {
    fn clone(&self) -> (res: Self)
        ensures
            res@ == self@,
    {
        match self {
            Destination::Menu(plugin) => Destination::Menu(plugin.clone()),
            Destination::Rgb(plugin) => Destination::Rgb(plugin.clone()),
        }
    }
}

/// What one button of a screen shows and does.
#[derive(Debug, PartialEq, Eq)]
pub enum Widget {
    /// A two-state button bound to an entity. It shows `active_text` and
    /// `active_icon` while the entity is on; a press turns the entity on or
    /// off through the services of `domain`.
    Toggle {
        text: String,
        icon: Icon,
        active_text: String,
        active_icon: Icon,
        domain: String,
        entity_id: String,
    },
    /// A button without an icon that turns a light on in one colour.
    Color { text: String, entity_id: String, color: (u8, u8, u8) },
    /// A button that opens another screen.
    Navigation { destination: Destination, text: String, icon: Icon },
}

/// Mathematical model of a [`Widget`].
pub enum WidgetView {
    Toggle {
        text: Seq<char>,
        icon: Icon,
        active_text: Seq<char>,
        active_icon: Icon,
        domain: Seq<char>,
        entity_id: Seq<char>,
    },
    Color { text: Seq<char>, entity_id: Seq<char>, color: (u8, u8, u8) },
    Navigation { destination: DestinationView, text: Seq<char>, icon: Icon },
}

impl View for Widget {
    type V = WidgetView;

    open spec fn view(&self) -> WidgetView {
        match self {
            Widget::Toggle { text, icon, active_text, active_icon, domain, entity_id } => {
                WidgetView::Toggle {
                    text: text@,
                    icon: *icon,
                    active_text: active_text@,
                    active_icon: *active_icon,
                    domain: domain@,
                    entity_id: entity_id@,
                }
            },
            Widget::Color { text, entity_id, color } => WidgetView::Color {
                text: text@,
                entity_id: entity_id@,
                color: *color,
            },
            Widget::Navigation { destination, text, icon } => WidgetView::Navigation {
                destination: destination@,
                text: text@,
                icon: *icon,
            },
        }
    }
}

impl Clone for Widget {
    fn clone(&self) -> (res: Self)
        ensures
            res@ == self@,
    {
        match self {
            Widget::Toggle { text, icon, active_text, active_icon, domain, entity_id } => {
                Widget::Toggle {
                    text: text.clone(),
                    icon: *icon,
                    active_text: active_text.clone(),
                    active_icon: *active_icon,
                    domain: domain.clone(),
                    entity_id: entity_id.clone(),
                }
            },
            Widget::Color { text, entity_id, color } => Widget::Color {
                text: text.clone(),
                entity_id: entity_id.clone(),
                color: *color,
            },
            Widget::Navigation { destination, text, icon } => Widget::Navigation {
                destination: destination.clone(),
                text: text.clone(),
                icon: *icon,
            },
        }
    }
}

/// The widget that stands for a configured button on a screen whose
/// children return to `back`.
pub open spec fn button_widget(item: ButtonView, back: Option<PluginView>) -> WidgetView {
    match item {
        ButtonView::Switch { entity_id, name } => WidgetView::Toggle {
            text: name,
            icon: Icon::ToggleOff,
            active_text: name,
            active_icon: Icon::ToggleOn,
            domain: "switch"@,
            entity_id,
        },
        ButtonView::RgbLight { entity_id, name } => WidgetView::Navigation {
            destination: DestinationView::Rgb(RgbPluginView { back_navigation: back, entity_id }),
            text: name,
            icon: Icon::Lightbulb,
        },
        ButtonView::Menu(menu) => WidgetView::Navigation {
            destination: DestinationView::Menu(
                PluginView {
                    menu,
                    back_navigation: match back {
                        Some(parent) => Some(Box::new(parent)),
                        None => None,
                    },
                },
            ),
            text: menu.name,
            icon: Icon::Menu,
        },
    }
}

/// Puts the widget of the configured button `item` at column `x` of row `y`
/// of `view`. Screens opened from the button return to `back_navigation`.
/// A place outside the grid is refused and the grid stays as it was.
pub fn add_button(
    view: &mut ButtonGrid,
    x: usize,
    y: usize,
    item: &HomeAssistantButton,
    back_navigation: &Option<Box<HomeAssistantPlugin>>,
) -> (res: Result<(), String>)
    ensures
        old(view)@.in_bounds(x as int, y as int) ==> res is Ok && final(view)@ == old(view)@.put(
            x as int,
            y as int,
            button_widget(item@, back_view(*back_navigation)),
        ),
        !old(view)@.in_bounds(x as int, y as int) ==> res is Err && res->Err_0@
            == out_of_bounds_message() && final(view)@ == old(view)@,
{
    match item {
        HomeAssistantButton::Switch { entity_id, name } => view.set_button(
            x,
            y,
            Widget::Toggle {
                text: name.clone(),
                icon: Icon::ToggleOff,
                active_text: name.clone(),
                active_icon: Icon::ToggleOn,
                domain: "switch".to_owned(),
                entity_id: entity_id.clone(),
            },
        ),
        HomeAssistantButton::RgbLight { entity_id, name } => view.set_navigation(
            x,
            y,
            Destination::Rgb(
                RgbControllerPlugin {
                    entity_id: entity_id.clone(),
                    back_navigation: clone_back(back_navigation),
                },
            ),
            name.clone(),
            Icon::Lightbulb,
        ),
        HomeAssistantButton::Menu(home_assistant_menu) => view.set_navigation(
            x,
            y,
            Destination::Menu(
                HomeAssistantPlugin {
                    menu: home_assistant_menu.clone(),
                    back_navigation: clone_back(back_navigation),
                },
            ),
            home_assistant_menu.name.clone(),
            Icon::Menu,
        ),
    }
}

/// The widget of a "Back" button that returns to `parent`.
pub open spec fn back_widget(parent: PluginView, icon: Icon) -> WidgetView {
    WidgetView::Navigation { destination: DestinationView::Menu(parent), text: "Back"@, icon }
}

/// The screen of a menu on a grid of `width` columns and `height` rows: the
/// buttons of the menu row by row from the top left, and "Back" in the
/// bottom right corner, over whatever else would stand there, if the screen
/// has a parent.
pub open spec fn menu_grid(plugin: PluginView, width: nat, height: nat) -> GridView {
    GridView {
        width,
        height,
        cells: Seq::new(
            width * height,
            |c: int|
                if plugin.back_navigation is Some && c == width * height - 1 {
                    Some(back_widget(*plugin.back_navigation->0, Icon::Menu))
                } else if c < plugin.menu.buttons.len() {
                    Some(button_widget(plugin.menu.buttons[c], Some(plugin)))
                } else {
                    None
                },
        ),
    }
}

/// The first `count` buttons of a menu on an otherwise empty grid.
spec fn menu_grid_prefix(plugin: PluginView, width: nat, height: nat, count: int) -> GridView {
    GridView {
        width,
        height,
        cells: Seq::new(
            width * height,
            |c: int|
                if c < count {
                    Some(button_widget(plugin.menu.buttons[c], Some(plugin)))
                } else {
                    None
                },
        ),
    }
}

/// Lays out the screen of `plugin` on a grid of `width` columns and `height`
/// rows. A menu with more buttons than the grid has cells is refused.
pub fn generate_menu(plugin: &HomeAssistantPlugin, width: usize, height: usize) -> (res: Result<
    ButtonGrid,
    String,
>)
    requires
        0 < width,
        0 < height,
        width * height <= usize::MAX,
    ensures
        res is Err <==> plugin@.menu.buttons.len() > width * height,
        res matches Err(message) ==> message@ == out_of_bounds_message(),
        res matches Ok(view) ==> view@ == menu_grid(plugin@, width as nat, height as nat),
{
    let mut view = ButtonGrid::new(width, height);
    let back_navigation = Some(Box::new(plugin.clone()));
    let total: usize = width * height;
    let mut index: usize = 0;
    assert(view@.cells =~= menu_grid_prefix(plugin@, width as nat, height as nat, 0).cells);
    while index < plugin.menu.buttons.len()
        invariant
            0 < width,
            0 < height,
            total == width * height,
            index <= plugin.menu.buttons.len(),
            index <= total,
            back_view(back_navigation) == Some(plugin@),
            view@ == menu_grid_prefix(plugin@, width as nat, height as nat, index as int),
        decreases plugin.menu.buttons.len() - index,
    {
        let x: usize = index % width;
        let y: usize = index / width;
        proof {
            lemma_row_and_column(index as int, width as int, height as int);
        }
        add_button(&mut view, x, y, &plugin.menu.buttons[index], &back_navigation)?;
        assert(plugin.menu.buttons@[index as int]@ == plugin@.menu.buttons[index as int]);
        assert(view@.cells =~= menu_grid_prefix(
            plugin@,
            width as nat,
            height as nat,
            index + 1,
        ).cells);
        index += 1;
    }
    if let Some(parent) = &plugin.back_navigation {
        proof {
            crate::plugins::grid::lemma_index_in_range(
                width as nat,
                height as nat,
                width - 1,
                height - 1,
            );
            assert((height - 1) * width + (width - 1) == width * height - 1) by (nonlinear_arith);
        }
        view.set_navigation(
            width - 1,
            height - 1,
            Destination::Menu((&**parent).clone()),
            "Back".to_owned(),
            Icon::Menu,
        )?;
    }
    assert(view@.cells =~= menu_grid(plugin@, width as nat, height as nat).cells);
    Ok(view)
}

impl HomeAssistantPlugin {
    /// The name of this kind of screen.
    pub fn name(&self) -> (res: &'static str)
        ensures
            res@ == "HomeAssistantPlugin"@,
    {
        "HomeAssistantPlugin"
    }

    /// Lays out the screen on a grid of `width` columns and `height` rows.
    /// The context must hold the configuration; a menu with more buttons
    /// than the grid has cells is refused.
    pub fn get_view(&self, context: &PluginContext, width: usize, height: usize) -> (res: Result<
        ButtonGrid,
        String,
    >)
        requires
            0 < width,
            0 < height,
            width * height <= usize::MAX,
        ensures
            res is Err <==> context.config is None || self@.menu.buttons.len() > width * height,
            res matches Err(message) ==> message@ == (if context.config is None {
                missing_config_message()
            } else {
                out_of_bounds_message()
            }),
            res matches Ok(view) ==> view@ == menu_grid(self@, width as nat, height as nat),
    {
        match context.config {
            None => Err("Failed to get HomeAssistantConfig".to_owned()),
            Some(_) => generate_menu(self, width, height),
        }
    }
}

/// Splitting a cell number into its row and column: below `width * height`
/// the cell lies on the grid and the split is exact; the cell numbered
/// `width * height` falls in the row after the last.
pub proof fn lemma_row_and_column(index: int, width: int, height: int)
    requires
        0 < width,
        0 < height,
        0 <= index <= width * height,
    ensures
        0 <= index % width < width,
        0 <= index / width,
        (index / width) * width + index % width == index,
        index < width * height ==> index / width < height,
        index == width * height ==> index / width == height,
{
    vstd::arithmetic::div_mod::lemma_fundamental_div_mod(index, width);
    vstd::arithmetic::div_mod::lemma_mod_bound(index, width);
    vstd::arithmetic::div_mod::lemma_div_pos_is_pos(index, width);
    let q = index / width;
    let r = index % width;
    assert(width * q == q * width) by (nonlinear_arith);
    if index < width * height {
        assert(q < height) by (nonlinear_arith)
            requires
                q * width + r == index,
                index < width * height,
                0 <= r,
                0 < width,
        {
        }
    }
    if index == width * height {
        assert(q == height) by (nonlinear_arith)
            requires
                q * width + r == index,
                index == width * height,
                0 <= r < width,
                0 < width,
        {
        }
    }
}

} // verus!
