use vstd::prelude::*;

verus! {

/// Colours of the bar widgets.
#[derive(Clone, Copy, Debug, PartialEq, Eq, Structural)]
pub enum NodeColor {
    Black,
    Blue,
    DarkGreen,
    Red,
}

/// Size and, for absolutely placed nodes, offsets from the parent's left
/// and top edges, all in tenths of a percent of the parent.
#[derive(Clone, Copy, Debug, PartialEq, Eq, Structural)]
pub struct NodeLayout {
    pub width: u32,
    pub height: u32,
    pub left: Option<u32>,
    pub top: Option<u32>,
}

/// A bar widget: a frame node and, inside it, the bar whose width follows
/// the player's state. It starts empty.
#[derive(Clone, Copy, Debug, PartialEq, Eq, Structural)]
pub struct BarWidget {
    pub frame_id: u64,
    pub frame: NodeLayout,
    pub frame_color: NodeColor,
    pub bar_id: u64,
    pub bar: NodeLayout,
    pub bar_color: NodeColor,
}

/// An empty bar filling the height of its frame.
pub open spec fn empty_bar() -> NodeLayout {
    NodeLayout { width: 0, height: 1000, left: None, top: None }
}

fn bar_widget(next_id: &mut u64, frame: NodeLayout, frame_color: NodeColor, bar_color: NodeColor) -> (r: BarWidget)
    requires
        *old(next_id) + 2 <= u64::MAX,
    ensures
        r == (BarWidget {
            frame_id: *old(next_id),
            frame,
            frame_color,
            bar_id: (*old(next_id) + 1) as u64,
            bar: empty_bar(),
            bar_color,
        }),
        *final(next_id) == *old(next_id) + 2,
{
    let frame_id = *next_id;
    *next_id = frame_id + 2;
    BarWidget {
        frame_id,
        frame,
        frame_color,
        bar_id: frame_id + 1,
        bar: NodeLayout { width: 0, height: 1000, left: None, top: None },
        bar_color,
    }
}

/// The header across the top of the window, a tenth of its height, holding
/// the experience bar.
pub fn spawn_header_ui(next_id: &mut u64) -> (r: BarWidget)
    requires
        *old(next_id) + 2 <= u64::MAX,
    ensures
        r == (BarWidget {
            frame_id: *old(next_id),
            frame: NodeLayout { width: 1000, height: 100, left: None, top: None },
            frame_color: NodeColor::DarkGreen,
            bar_id: (*old(next_id) + 1) as u64,
            bar: empty_bar(),
            bar_color: NodeColor::Blue,
        }),
        *final(next_id) == *old(next_id) + 2,
{
    bar_widget(next_id, NodeLayout { width: 1000, height: 100, left: None, top: None }, NodeColor::DarkGreen, NodeColor::Blue)
}

/// The small frame just below the player, who always stands at the centre
/// of the view, holding the health bar.
pub fn spawn_player_ui(next_id: &mut u64) -> (r: BarWidget)
    requires
        *old(next_id) + 2 <= u64::MAX,
    ensures
        r == (BarWidget {
            frame_id: *old(next_id),
            frame: NodeLayout { width: 50, height: 20, left: Some(475), top: Some(550) },
            frame_color: NodeColor::Black,
            bar_id: (*old(next_id) + 1) as u64,
            bar: empty_bar(),
            bar_color: NodeColor::Red,
        }),
        *final(next_id) == *old(next_id) + 2,
{
    bar_widget(next_id, NodeLayout { width: 50, height: 20, left: Some(475), top: Some(550) }, NodeColor::Black, NodeColor::Red)
}

} // verus!
