use vstd::prelude::*;

pub mod error;
pub mod text;
pub mod settings_xml;
pub mod settings;
pub mod legacy;
pub mod monitor;
pub mod placement;
pub mod taskbar_widget;
pub mod media;
pub mod media_session;
pub mod input;
pub mod runtime;
pub mod flyout_window;
pub mod display_host;
pub mod commands;
pub mod visualizer;
pub mod widget_paint;
pub mod media_view;
pub mod runtime_events;
pub mod taskbar_find;
pub mod xml_entries;
pub mod saved_settings;
pub mod legacy_roundtrip;

verus! {

} // verus!
