//! Sidecar lifecycle and deep-link dispatch logic for a desktop shell that
//! hosts a local web interface served by a supervised sidecar process.
pub mod activation;
pub mod endpoint;
pub mod external_url;
pub mod lifecycle;
pub mod readiness;
pub mod supervisor;

pub use activation::{activation_actions, callback_script, dispatch_opened, WindowAction};
pub use endpoint::{decimal_text, frontend_url, probe_address, FRONTEND_PORT};
pub use external_url::{
    check_web_url, launcher_result, starts_with, validate_external_url, LauncherOutcome,
};
pub use lifecycle::{main_window_settings, respond, MainWindowSettings, ShellEvent, ShellResponse};
pub use readiness::{
    navigation_target, ProbeAction, ProbeState, Prober, CONNECT_TIMEOUT_MS, READY_TIMEOUT_MS,
    RETRY_DELAY_MS,
};
pub use supervisor::{
    check_entry, launch_step, locate_server_root, setup_failure, sidecar_environment, sidecar_layout,
    LaunchAction, LaunchError, LaunchErrorKind, LaunchEvent, LaunchPhase, ServerSlot, SetupStep, SidecarLayout,
};
