//! The colour picker of an RGB light.

use crate::plugins::grid::{lemma_index_in_range, ButtonGrid, GridView};
use crate::plugins::{
    back_widget, lemma_row_and_column, missing_connection_message, Destination,
    HomeAssistantPlugin, Icon, PluginContext, PluginView, ServiceRequest, Widget, WidgetView,
};
use vstd::prelude::*;

verus! {

/// The screen that controls one RGB light: an on/off toggle and a palette
/// of colours.
#[derive(Debug, PartialEq, Eq)]
pub struct RgbControllerPlugin {
    /// The screen to return to when "Back" is pressed, if any.
    pub back_navigation: Option<Box<HomeAssistantPlugin>>,
    /// The entity id of the light.
    pub entity_id: String,
}

/// Mathematical model of a [`RgbControllerPlugin`].
pub struct RgbPluginView {
    pub back_navigation: Option<PluginView>,
    pub entity_id: Seq<char>,
}

impl View for RgbControllerPlugin {
    type V = RgbPluginView;

    open spec fn view(&self) -> RgbPluginView {
        RgbPluginView {
            back_navigation: crate::plugins::back_view(self.back_navigation),
            entity_id: self.entity_id@,
        }
    }
}

impl Clone for RgbControllerPlugin {
    fn clone(&self) -> (res: Self)
        ensures
            res@ == self@,
    {
        RgbControllerPlugin {
            back_navigation: crate::plugins::clone_back(&self.back_navigation),
            entity_id: self.entity_id.clone(),
        }
    }
}

/// The number of colours in the palette.
pub const PALETTE_LEN: usize = 12;

/// The palette: the name and the red, green and blue parts of colour
/// number `index`.
pub open spec fn palette(index: int) -> (Seq<char>, (u8, u8, u8)) {
    if index == 0 {
        ("Red"@, (255u8, 0u8, 0u8))
    } else if index == 1 {
        ("Green"@, (0u8, 255u8, 0u8))
    } else if index == 2 {
        ("Blue"@, (0u8, 0u8, 255u8))
    } else if index == 3 {
        ("White"@, (255u8, 255u8, 255u8))
    } else if index == 4 {
        ("Warm White"@, (255u8, 200u8, 100u8))
    } else if index == 5 {
        ("Cool White"@, (200u8, 220u8, 255u8))
    } else if index == 6 {
        ("Purple"@, (128u8, 0u8, 128u8))
    } else if index == 7 {
        ("Yellow"@, (255u8, 255u8, 0u8))
    } else if index == 8 {
        ("Cyan"@, (0u8, 255u8, 255u8))
    } else if index == 9 {
        ("Orange"@, (255u8, 165u8, 0u8))
    } else if index == 10 {
        ("Pink"@, (255u8, 192u8, 203u8))
    } else {
        ("Teal"@, (0u8, 128u8, 128u8))
    }
}

/// Colour number `index` of the palette.
pub fn color(index: usize) -> (res: (&'static str, (u8, u8, u8)))
    requires
        index < PALETTE_LEN,
    ensures
        res.0@ == palette(index as int).0,
        res.1 == palette(index as int).1,
{
    if index == 0 {
        ("Red", (255, 0, 0))
    } else if index == 1 {
        ("Green", (0, 255, 0))
    } else if index == 2 {
        ("Blue", (0, 0, 255))
    } else if index == 3 {
        ("White", (255, 255, 255))
    } else if index == 4 {
        ("Warm White", (255, 200, 100))
    } else if index == 5 {
        ("Cool White", (200, 220, 255))
    } else if index == 6 {
        ("Purple", (128, 0, 128))
    } else if index == 7 {
        ("Yellow", (255, 255, 0))
    } else if index == 8 {
        ("Cyan", (0, 255, 255))
    } else if index == 9 {
        ("Orange", (255, 165, 0))
    } else if index == 10 {
        ("Pink", (255, 192, 203))
    } else {
        ("Teal", (0, 128, 128))
    }
}

/// The request that a press of a colour button makes: turn the light
/// `entity_id` on in the colour `color`. Without a hub connection in the
/// context there is no request.
pub fn color_request(context: &PluginContext, entity_id: &str, color: (u8, u8, u8)) -> (res: Result<
    ServiceRequest,
    String,
>)
    ensures
        context.hass is None ==> res is Err && res->Err_0@ == missing_connection_message(),
        context.hass is Some ==> res is Ok && res->Ok_0.domain@ == "light"@ && res->Ok_0.service@
            == "turn_on"@ && res->Ok_0.entity_id@ == entity_id@ && res->Ok_0.color == Some(color),
{
    match context.hass {
        None => Err("Failed to get PersistentHassConnection".to_owned()),
        Some(_) => Ok(
            ServiceRequest {
                domain: "light".to_owned(),
                service: "turn_on".to_owned(),
                entity_id: entity_id.to_owned(),
                color: Some(color),
            },
        ),
    }
}

/// How many colours a grid of `cells` cells shows: all of the palette, or
/// as many as fit beside the on/off toggle and "Back".
pub open spec fn shown_colors(cells: int) -> int {
    if cells - 2 < PALETTE_LEN {
        cells - 2
    } else {
        PALETTE_LEN as int
    }
}

/// The on/off toggle of the light `entity_id`.
pub open spec fn on_off_widget(entity_id: Seq<char>) -> WidgetView {
    WidgetView::Toggle {
        text: "On/Off"@,
        icon: Icon::ToggleOff,
        active_text: "On/Off"@,
        active_icon: Icon::ToggleOn,
        domain: "light"@,
        entity_id,
    }
}

/// The button that turns the light `entity_id` on in colour `index`.
pub open spec fn color_widget(entity_id: Seq<char>, index: int) -> WidgetView {
    WidgetView::Color { text: palette(index).0, entity_id, color: palette(index).1 }
}

/// The colour picker on a grid of `width` columns and `height` rows: the
/// on/off toggle in the top left corner, then the colours row by row, and
/// "Back" in the bottom right corner if the screen has a parent.
pub open spec fn controller_grid(plugin: RgbPluginView, width: nat, height: nat) -> GridView {
    GridView {
        width,
        height,
        cells: Seq::new(
            width * height,
            |c: int|
                if plugin.back_navigation is Some && c == width * height - 1 {
                    Some(back_widget(plugin.back_navigation->0, Icon::ArrowBack))
                } else if c == 0 {
                    Some(on_off_widget(plugin.entity_id))
                } else if c <= shown_colors((width * height) as int) {
                    Some(color_widget(plugin.entity_id, c - 1))
                } else {
                    None
                },
        ),
    }
}

/// The toggle and the first `count` colours on an otherwise empty grid.
spec fn controller_grid_prefix(
    plugin: RgbPluginView,
    width: nat,
    height: nat,
    count: int,
) -> GridView {
    GridView {
        width,
        height,
        cells: Seq::new(
            width * height,
            |c: int|
                if c == 0 {
                    Some(on_off_widget(plugin.entity_id))
                } else if c <= count {
                    Some(color_widget(plugin.entity_id, c - 1))
                } else {
                    None
                },
        ),
    }
}

impl RgbControllerPlugin {
    /// The name of this kind of screen.
    pub fn name(&self) -> (res: &'static str)
        ensures
            res@ == "RgbControllerPlugin"@,
    {
        "RgbControllerPlugin"
    }

    /// Lays out the colour picker on a grid of `width` columns and `height`
    /// rows. The grid must have room for the toggle and for "Back".
    pub fn get_view(&self, width: usize, height: usize) -> (res: Result<ButtonGrid, String>)
        requires
            2 <= width * height <= usize::MAX,
        ensures
            res matches Ok(view) && view@ == controller_grid(self@, width as nat, height as nat),
    {
        assert(0 < width && 0 < height) by (nonlinear_arith)
            requires
                2 <= width * height,
        {
        }
        let mut view = ButtonGrid::new(width, height);
        let total: usize = width * height;
        proof {
            lemma_index_in_range(width as nat, height as nat, 0, 0);
        }
        view.set_button(
            0,
            0,
            Widget::Toggle {
                text: "On/Off".to_owned(),
                icon: Icon::ToggleOff,
                active_text: "On/Off".to_owned(),
                active_icon: Icon::ToggleOn,
                domain: "light".to_owned(),
                entity_id: self.entity_id.clone(),
            },
        )?;
        let max_buttons: usize = total - 2;
        let colors_to_show: usize = if PALETTE_LEN < max_buttons {
            PALETTE_LEN
        } else {
            max_buttons
        };
        assert(view@.cells =~= controller_grid_prefix(self@, width as nat, height as nat, 0).cells);
        let mut index: usize = 0;
        while index < colors_to_show
            invariant
                0 < width,
                0 < height,
                total == width * height,
                2 <= total,
                colors_to_show == shown_colors(total as int),
                index <= colors_to_show,
                view@ == controller_grid_prefix(self@, width as nat, height as nat, index as int),
            decreases colors_to_show - index,
        {
            let button_index: usize = index + 1;
            let x: usize = button_index % width;
            let y: usize = button_index / width;
            proof {
                lemma_row_and_column(button_index as int, width as int, height as int);
            }
            let (color_name, rgb) = color(index);
            view.set_button(
                x,
                y,
                Widget::Color {
                    text: color_name.to_owned(),
                    entity_id: self.entity_id.clone(),
                    color: rgb,
                },
            )?;
            assert(view@.cells =~= controller_grid_prefix(
                self@,
                width as nat,
                height as nat,
                index + 1,
            ).cells);
            index += 1;
        }
        if let Some(parent) = &self.back_navigation {
            proof {
                lemma_index_in_range(width as nat, height as nat, width - 1, height - 1);
                assert((height - 1) * width + (width - 1) == width * height - 1)
                    by (nonlinear_arith);
            }
            view.set_navigation(
                width - 1,
                height - 1,
                Destination::Menu((&**parent).clone()),
                "Back".to_owned(),
                Icon::ArrowBack,
            )?;
        }
        assert(view@.cells =~= controller_grid(self@, width as nat, height as nat).cells);
        Ok(view)
    }
}

} // verus!
