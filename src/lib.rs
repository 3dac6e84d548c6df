//! Session engine for reactive, server-rendered web interfaces: an input
//! store with change detection, a per-connection state machine with
//! liveness monitoring, and builders for the messages pushed to the client.

pub mod value;
pub mod input_pool;
pub mod session;
pub mod ui;

pub use value::{InputValue, Json};
pub use input_pool::{InputError, InputPool};
pub use session::{generate_id, Action, ConfigError, Frame, MessageKind, Phase, ShinyMsg, ShinyServer, ID_LEN};
pub use ui::{
    html_values_frame, input_message_frame, insert_html, insert_ui_frame, javascript_frame, ns,
    plot_values_frame, remove_html, remove_ui_frame, render_html, render_plot, run_js,
    select_options, show_notification, update_numeric_input, update_select_input,
    update_text_input,
};
