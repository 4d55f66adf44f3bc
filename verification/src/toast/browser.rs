use vstd::prelude::*;
use crate::foundation::shared::{opt_text_view, texts_view};
use super::types::{SwipeDirection, ToastConfig};

verus! {

/// Browser lifecycle and window events that the toast runtime observes.
#[derive(Clone, Debug, PartialEq, Eq)]
pub enum ToastEventPayload {
    /// Page visibility changed (`true` when visible).
    Visibility { visible: bool },
    /// The landmark hotkey was pressed.
    Hotkey { key: String },
    /// The viewport was entered or left by the pointer.
    Hover { hovered: bool },
    /// Focus entered or left the viewport.
    Focus { focused: bool },
    /// A swipe gesture started or ended.
    SwipeActive { swiping: bool },
    /// A swipe crossed the dismiss threshold for the toast with this id.
    SwipeDismiss { id: u64 },
    /// The monitor shut down.
    Stopped,
}

pub type ToastBrowserEvent = ToastEventPayload;

/// A set edge offset, else the default.
pub open spec fn offset_or(offset: Option<String>, default: Seq<char>) -> Seq<char> {
    match opt_text_view(offset) {
        Some(v) => v,
        None => default,
    }
}

/// What the browser monitor is told about the toaster, as text: hotkey, viewport, placement,
/// reading direction, swipe directions and the edge offsets (desktop ones default to 32px,
/// mobile ones to 16px).
#[derive(Clone, Debug, PartialEq, Eq)]
pub struct ToastBrowserOptions {
    pub hotkey: String,
    pub viewport_id: String,
    pub position: String,
    pub dir: String,
    pub swipe_directions: Vec<String>,
    pub offset_top: String,
    pub offset_right: String,
    pub offset_bottom: String,
    pub offset_left: String,
    pub mobile_offset_top: String,
    pub mobile_offset_right: String,
    pub mobile_offset_bottom: String,
    pub mobile_offset_left: String,
}

fn offset_text(offset: &Option<String>, default: &str) -> (s: String)
    ensures
        s@ == offset_or(*offset, default@),
{
    match offset {
        Some(v) => v.clone(),
        None => default.to_owned(),
    }
}

fn direction_texts(dirs: &Vec<SwipeDirection>) -> (r: Vec<String>)
    ensures
        texts_view(r@) == dirs@.map_values(|d: SwipeDirection| d.spec_text()),
{
    let mut r: Vec<String> = Vec::new();
    let mut i: usize = 0;
    while i < dirs.len()
        invariant
            0 <= i <= dirs@.len(),
            texts_view(r@) == dirs@.map_values(|d: SwipeDirection| d.spec_text()).take(i as int),
        decreases dirs@.len() - i,
    {
        let ghost before = texts_view(r@);
        let t = dirs[i].as_str().to_owned();
        r.push(t);
        assert(texts_view(r@) =~= before.push(dirs@[i as int].spec_text()));
        assert(texts_view(r@) =~= dirs@.map_values(|d: SwipeDirection| d.spec_text()).take(
            i + 1,
        ));
        i = i + 1;
    }
    assert(dirs@.map_values(|d: SwipeDirection| d.spec_text()).take(dirs@.len() as int)
        =~= dirs@.map_values(|d: SwipeDirection| d.spec_text()));
    r
}

impl ToastBrowserOptions {
    pub fn from_config(config: &ToastConfig, viewport_id: &str) -> (o: Self)
        ensures
            o.hotkey@ == config.hotkey@,
            o.viewport_id@ == viewport_id@,
            o.position@ == config.position.spec_text(),
            o.dir@ == config.dir.spec_text(),
            texts_view(o.swipe_directions@) == config.spec_effective_swipe_directions().map_values(
                |d: SwipeDirection| d.spec_text(),
            ),
            o.offset_top@ == offset_or(config.offset.top, "32px"@),
            o.offset_right@ == offset_or(config.offset.right, "32px"@),
            o.offset_bottom@ == offset_or(config.offset.bottom, "32px"@),
            o.offset_left@ == offset_or(config.offset.left, "32px"@),
            o.mobile_offset_top@ == offset_or(config.mobile_offset.top, "16px"@),
            o.mobile_offset_right@ == offset_or(config.mobile_offset.right, "16px"@),
            o.mobile_offset_bottom@ == offset_or(config.mobile_offset.bottom, "16px"@),
            o.mobile_offset_left@ == offset_or(config.mobile_offset.left, "16px"@),
    {
        let default_offset = "32px";
        let default_mobile = "16px";
        let dirs = config.effective_swipe_directions();
        ToastBrowserOptions {
            hotkey: config.hotkey.clone(),
            viewport_id: viewport_id.to_owned(),
            position: config.position.as_str().to_owned(),
            dir: config.dir.as_str().to_owned(),
            swipe_directions: direction_texts(&dirs),
            offset_top: offset_text(&config.offset.top, default_offset),
            offset_right: offset_text(&config.offset.right, default_offset),
            offset_bottom: offset_text(&config.offset.bottom, default_offset),
            offset_left: offset_text(&config.offset.left, default_offset),
            mobile_offset_top: offset_text(&config.mobile_offset.top, default_mobile),
            mobile_offset_right: offset_text(&config.mobile_offset.right, default_mobile),
            mobile_offset_bottom: offset_text(&config.mobile_offset.bottom, default_mobile),
            mobile_offset_left: offset_text(&config.mobile_offset.left, default_mobile),
        }
    }
}

} // verus!
