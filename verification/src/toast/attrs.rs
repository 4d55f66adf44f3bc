use vstd::prelude::*;
use vstd::string::StrSliceExecFns;
use crate::foundation::shared::texts_view;
use crate::foundation::text::{decimal, decimal_text, join_texts, joined, replace_text, replaced};
use super::types::{ToastConfig, ToastOffset, ToastPhase, ToastPosition, ToastType};

verus! {

/// `"true"` or `"false"`.
pub open spec fn bool_text(b: bool) -> Seq<char> {
    if b {
        "true"@
    } else {
        "false"@
    }
}

fn bool_str(b: bool) -> (s: &'static str)
    ensures
        s@ == bool_text(b),
{
    if b {
        "true"
    } else {
        "false"
    }
}

/// The declaration `prefix value;` for a set edge, nothing for an unset one.
pub open spec fn edge_style(prefix: Seq<char>, value: Option<String>) -> Seq<Seq<char>> {
    match value {
        Some(v) => seq![prefix + v@ + ";"@],
        None => Seq::empty(),
    }
}

/// The custom-property declarations of the viewport offsets, desktop then mobile, each in
/// top, right, bottom, left order.
pub open spec fn offset_styles(offset: ToastOffset, mobile: ToastOffset) -> Seq<Seq<char>> {
    edge_style("--offset-top: "@, offset.top) + edge_style("--offset-right: "@, offset.right)
        + edge_style("--offset-bottom: "@, offset.bottom) + edge_style(
        "--offset-left: "@,
        offset.left,
    ) + edge_style("--mobile-offset-top: "@, mobile.top) + edge_style(
        "--mobile-offset-right: "@,
        mobile.right,
    ) + edge_style("--mobile-offset-bottom: "@, mobile.bottom) + edge_style(
        "--mobile-offset-left: "@,
        mobile.left,
    )
}

fn push_edge_style(styles: &mut Vec<String>, prefix: &str, value: &Option<String>)
    ensures
        texts_view(final(styles)@) == texts_view(old(styles)@) + edge_style(prefix@, *value),
{
    match value {
        Some(v) => {
            let entry = prefix.to_owned().concat(v.as_str()).concat(";");
            proof {
                reveal_strlit(";");
            }
            let ghost before = styles@;
            styles.push(entry);
            assert(texts_view(styles@) =~= texts_view(before) + edge_style(prefix@, *value));
        },
        None => {
            assert(texts_view(styles@) =~= texts_view(styles@) + edge_style(prefix@, *value));
        },
    }
}

/// Attributes of the landmark viewport that holds the toasts.
#[derive(Clone, Debug, PartialEq)]
pub struct ToastViewportAttrs {
    pub role: &'static str,
    pub aria_label: String,
    pub tabindex: &'static str,
    pub dir: String,
    pub data_expanded: &'static str,
    pub data_position: &'static str,
    pub data_x_position: &'static str,
    pub data_y_position: &'static str,
    pub style: String,
}

/// The viewport's own style followed by the style its user adds, a space between them when
/// both are set.
pub open spec fn combined_style(own: Seq<char>, extra: Option<Seq<char>>) -> Seq<char> {
    match extra {
        Some(e) => if own.len() > 0 {
            own + " "@ + e
        } else {
            e
        },
        None => own,
    }
}

impl ToastViewportAttrs {
    /// The style attribute with `extra` added after the viewport's own.
    pub fn combined_style(&self, extra: Option<&str>) -> (s: String)
        ensures
            s@ == combined_style(
                self.style@,
                match extra {
                    Some(e) => Some(e@),
                    None => None,
                },
            ),
    {
        match extra {
            Some(e) => {
                if self.style.unicode_len() > 0 {
                    let mut s = self.style.clone();
                    s.append(" ");
                    s.append(e);
                    proof {
                        reveal_strlit(" ");
                    }
                    s
                } else {
                    e.to_owned()
                }
            },
            None => self.style.clone(),
        }
    }

    pub fn new(config: &ToastConfig, expanded: bool, dir: String) -> (a: Self)
        ensures
            a.role@ == "region"@,
            a.aria_label@ == replaced(
                config.container_aria_label@,
                "{hotkey}"@,
                config.hotkey@,
            ),
            a.tabindex@ == "-1"@,
            a.dir == dir,
            a.data_expanded@ == bool_text(expanded),
            a.data_position@ == config.position.spec_text(),
            a.data_x_position@ == config.position.spec_x_text(),
            a.data_y_position@ == config.position.spec_y_text(),
            a.style@ == joined(offset_styles(config.offset, config.mobile_offset), " "@),
    {
        Self::with_position(config, expanded, dir, config.position)
    }

    /// The viewport is a region labelled with the hotkey put into the container label, and
    /// carries the offsets as custom properties.
    pub fn with_position(
        config: &ToastConfig,
        expanded: bool,
        dir: String,
        position: ToastPosition,
    ) -> (a: Self)
        ensures
            a.role@ == "region"@,
            a.aria_label@ == replaced(
                config.container_aria_label@,
                "{hotkey}"@,
                config.hotkey@,
            ),
            a.tabindex@ == "-1"@,
            a.dir == dir,
            a.data_expanded@ == bool_text(expanded),
            a.data_position@ == position.spec_text(),
            a.data_x_position@ == position.spec_x_text(),
            a.data_y_position@ == position.spec_y_text(),
            a.style@ == joined(offset_styles(config.offset, config.mobile_offset), " "@),
    {
        proof {
            reveal_strlit("{hotkey}");
            reveal_strlit("region");
            reveal_strlit("-1");
        }
        let mut styles: Vec<String> = Vec::new();
        push_edge_style(&mut styles, "--offset-top: ", &config.offset.top);
        push_edge_style(&mut styles, "--offset-right: ", &config.offset.right);
        push_edge_style(&mut styles, "--offset-bottom: ", &config.offset.bottom);
        push_edge_style(&mut styles, "--offset-left: ", &config.offset.left);
        push_edge_style(&mut styles, "--mobile-offset-top: ", &config.mobile_offset.top);
        push_edge_style(&mut styles, "--mobile-offset-right: ", &config.mobile_offset.right);
        push_edge_style(&mut styles, "--mobile-offset-bottom: ", &config.mobile_offset.bottom);
        push_edge_style(&mut styles, "--mobile-offset-left: ", &config.mobile_offset.left);
        assert(texts_view(styles@) =~= offset_styles(config.offset, config.mobile_offset));
        ToastViewportAttrs {
            role: "region",
            aria_label: replace_text(
                config.container_aria_label.as_str(),
                "{hotkey}",
                config.hotkey.as_str(),
            ),
            tabindex: "-1",
            dir,
            data_expanded: bool_str(expanded),
            data_position: position.as_str(),
            data_x_position: position.x_str(),
            data_y_position: position.y_str(),
            style: join_texts(&styles, " "),
        }
    }
}

/// Warnings and errors are announced assertively as alerts; the others politely as status.
pub open spec fn announces_as_alert(toast_type: ToastType) -> bool {
    toast_type == ToastType::Warning || toast_type == ToastType::Error
}

/// Attributes of one toast card.
#[derive(Clone, Debug, PartialEq)]
pub struct ToastRootAttrs {
    pub role: &'static str,
    pub aria_live: &'static str,
    pub aria_atomic: &'static str,
    pub data_state: &'static str,
    pub data_type: &'static str,
    pub data_visible: &'static str,
    pub data_front: &'static str,
    pub data_expanded: &'static str,
    pub data_position: &'static str,
    pub data_x_position: &'static str,
    pub data_y_position: &'static str,
    pub data_swipe_out: &'static str,
    pub data_index: String,
    pub data_testid: Option<String>,
}

impl ToastRootAttrs {
    /// The attributes of card `index` of a stack showing `visible_limit` cards.
    pub open spec fn spec_attrs(
        self,
        toast_type: ToastType,
        phase: ToastPhase,
        index: usize,
        visible_limit: usize,
        test_id: Option<String>,
        expanded: bool,
        position: ToastPosition,
    ) -> bool {
        &&& self.role@ == (if announces_as_alert(toast_type) {
            "alert"@
        } else {
            "status"@
        })
        &&& self.aria_live@ == (if announces_as_alert(toast_type) {
            "assertive"@
        } else {
            "polite"@
        })
        &&& self.aria_atomic@ == "true"@
        &&& self.data_state@ == phase.spec_state_text()
        &&& self.data_type@ == toast_type.spec_text()
        &&& self.data_visible@ == bool_text(index < visible_limit)
        &&& self.data_front@ == bool_text(index == 0)
        &&& self.data_expanded@ == bool_text(expanded)
        &&& self.data_position@ == position.spec_text()
        &&& self.data_x_position@ == position.spec_x_text()
        &&& self.data_y_position@ == position.spec_y_text()
        &&& self.data_swipe_out@ == "false"@
        &&& self.data_index@ == decimal(index as nat)
        &&& self.data_testid == test_id
    }

    pub fn new(
        toast_type: ToastType,
        phase: ToastPhase,
        index: usize,
        visible_limit: usize,
        test_id: Option<String>,
    ) -> (a: Self)
        ensures
            a.spec_attrs(
                toast_type,
                phase,
                index,
                visible_limit,
                test_id,
                false,
                ToastPosition::BottomRight,
            ),
    {
        Self::with_options(toast_type, phase, index, visible_limit, test_id, false)
    }

    pub fn with_options(
        toast_type: ToastType,
        phase: ToastPhase,
        index: usize,
        visible_limit: usize,
        test_id: Option<String>,
        expanded: bool,
    ) -> (a: Self)
        ensures
            a.spec_attrs(
                toast_type,
                phase,
                index,
                visible_limit,
                test_id,
                expanded,
                ToastPosition::BottomRight,
            ),
    {
        Self::with_options_and_position(
            toast_type,
            phase,
            index,
            visible_limit,
            test_id,
            expanded,
            ToastPosition::BottomRight,
        )
    }

    pub fn with_options_and_position(
        toast_type: ToastType,
        phase: ToastPhase,
        index: usize,
        visible_limit: usize,
        test_id: Option<String>,
        expanded: bool,
        position: ToastPosition,
    ) -> (a: Self)
        ensures
            a.spec_attrs(toast_type, phase, index, visible_limit, test_id, expanded, position),
    {
        let (role, aria_live) = match toast_type {
            ToastType::Warning | ToastType::Error => ("alert", "assertive"),
            _ => ("status", "polite"),
        };
        ToastRootAttrs {
            role,
            aria_live,
            aria_atomic: "true",
            data_state: phase.as_state_str(),
            data_type: toast_type.as_str(),
            data_visible: bool_str(index < visible_limit),
            data_front: bool_str(index == 0),
            data_expanded: bool_str(expanded),
            data_position: position.as_str(),
            data_x_position: position.x_str(),
            data_y_position: position.y_str(),
            data_swipe_out: "false",
            data_index: decimal_text(index),
            data_testid: test_id,
        }
    }

    pub fn with_expanded(self, expanded: bool) -> (a: Self)
        ensures
            a.data_expanded@ == bool_text(expanded),
            a == (ToastRootAttrs { data_expanded: a.data_expanded, ..self }),
    {
        ToastRootAttrs { data_expanded: bool_str(expanded), ..self }
    }
}

/// Attributes of an action button. The `type` attribute is held in `button_type`.
#[derive(Clone, Debug, PartialEq)]
pub struct ToastActionAttrs {
    pub button_type: &'static str,
    pub aria_label: String,
}

impl ToastActionAttrs {
    pub fn new(alt_text: String) -> (a: Self)
        ensures
            a.button_type@ == "button"@,
            a.aria_label == alt_text,
    {
        proof {
            reveal_strlit("button");
        }
        ToastActionAttrs { button_type: "button", aria_label: alt_text }
    }
}

/// Attributes of a close button, which screen-reader announcements leave out.
#[derive(Clone, Debug, PartialEq)]
pub struct ToastCloseAttrs {
    pub button_type: &'static str,
    pub aria_label: String,
    pub data_radix_toast_announce_exclude: &'static str,
}

impl ToastCloseAttrs {
    pub fn new(config: &ToastConfig) -> (a: Self)
        ensures
            a.button_type@ == "button"@,
            a.aria_label == config.close_button_aria_label,
            a.data_radix_toast_announce_exclude@ == "true"@,
    {
        proof {
            reveal_strlit("button");
        }
        ToastCloseAttrs {
            button_type: "button",
            aria_label: config.close_button_aria_label.clone(),
            data_radix_toast_announce_exclude: "true",
        }
    }
}

} // verus!
