//! Events and commands that pass between the threads of the program.
use vstd::prelude::*;

verus! {

/// State of the heartbeat, as the main window shows it.
#[derive(Clone, Copy, Debug, PartialEq, Eq, Structural)]
pub enum HeartStatus {
    /// No service address is configured.
    NotConfigured,
    /// An address is configured, but the service has not answered yet.
    Waiting,
    /// The service answers.
    Connected,
    /// The heartbeat is lost; the service may be offline.
    Lost,
}

/// A heartbeat service found in the local network.
#[derive(Clone, Debug)]
pub struct Device {
    /// Name of the device, from its announcement.
    pub name: String,
    /// WebSocket address as `ip:port`, without a scheme.
    pub addr: String,
    /// Identity of the device, if it announces one.
    pub id: Option<String>,
}

/// A device in terms of plain values.
pub struct DeviceView {
    pub name: Seq<char>,
    pub addr: Seq<char>,
    pub id: Option<Seq<char>>,
}

/// An optional text in terms of plain values.
pub open spec fn opt_text(text: Option<String>) -> Option<Seq<char>> {
    match text {
        Some(t) => Some(t@),
        None => None,
    }
}

/// A message of success or failure in terms of plain values.
pub open spec fn outcome_text(outcome: Result<String, String>) -> Result<Seq<char>, Seq<char>> {
    match outcome {
        Ok(t) => Ok(t@),
        Err(t) => Err(t@),
    }
}

/// A list of devices in terms of plain values.
pub open spec fn devices_view(devices: Seq<Device>) -> Seq<DeviceView> {
    devices.map_values(|d: Device| d@)
}

/// The result of a scan in terms of plain values.
pub open spec fn scan_view(scan: Result<Vec<Device>, String>) -> Result<
    Seq<DeviceView>,
    Seq<char>,
> {
    match scan {
        Ok(devices) => Ok(devices_view(devices@)),
        Err(e) => Err(e@),
    }
}

impl View for Device {
    type V = DeviceView;

    open spec fn view(&self) -> DeviceView {
        DeviceView { name: self.name@, addr: self.addr@, id: opt_text(self.id) }
    }
}

/// What the user chose in the countdown window.
#[derive(Clone, Copy, Debug, PartialEq, Eq, Structural)]
pub enum CountdownChoice {
    /// No shutdown this time; nothing comes up again until the heartbeat has recovered.
    Cancel,
    /// Shut down later; the countdown comes back after a while.
    Later,
}

/// Events for the main loop.
#[derive(Debug)]
pub enum AppEvent {
    /// The heartbeat has recovered, or succeeded for the first time.
    HeartbeatOk,
    /// The service counts as lost.
    HeartbeatLost { detail: String },
    /// The device answers under another address, which is monitored from now on.
    TargetAutoChanged { old: String, new: String },
    /// A scan of the local network is done.
    ScanFinished(Result<Vec<Device>, String>),
    /// A connection test is done.
    TestFinished(Result<String, String>),
    /// The tray asks for the main window.
    TrayShow,
    /// The tray asks the program to quit.
    Quit,
    /// Start at logon was switched from the tray.
    AutostartChanged(bool),
    /// The main window went to the tray.
    WindowHidden,
    /// The countdown ran out, or the user asked to shut down at once.
    ShutdownNow,
    /// The user made a choice in the countdown window.
    CountdownAction(CountdownChoice),
}

/// An event in terms of plain values.
pub enum AppEventView {
    HeartbeatOk,
    HeartbeatLost { detail: Seq<char> },
    TargetAutoChanged { old_addr: Seq<char>, new_addr: Seq<char> },
    ScanFinished(Result<Seq<DeviceView>, Seq<char>>),
    TestFinished(Result<Seq<char>, Seq<char>>),
    TrayShow,
    Quit,
    AutostartChanged(bool),
    WindowHidden,
    ShutdownNow,
    CountdownAction(CountdownChoice),
}

impl View for AppEvent {
    type V = AppEventView;

    open spec fn view(&self) -> AppEventView {
        match self {
            AppEvent::HeartbeatOk => AppEventView::HeartbeatOk,
            AppEvent::HeartbeatLost { detail } => AppEventView::HeartbeatLost { detail: detail@ },
            AppEvent::TargetAutoChanged { old: from, new: to } => AppEventView::TargetAutoChanged {
                old_addr: from@,
                new_addr: to@,
            },
            AppEvent::ScanFinished(result) => AppEventView::ScanFinished(scan_view(*result)),
            AppEvent::TestFinished(result) => AppEventView::TestFinished(outcome_text(*result)),
            AppEvent::TrayShow => AppEventView::TrayShow,
            AppEvent::Quit => AppEventView::Quit,
            AppEvent::AutostartChanged(on) => AppEventView::AutostartChanged(*on),
            AppEvent::WindowHidden => AppEventView::WindowHidden,
            AppEvent::ShutdownNow => AppEventView::ShutdownNow,
            AppEvent::CountdownAction(choice) => AppEventView::CountdownAction(*choice),
        }
    }
}

/// A list of events in terms of plain values.
pub open spec fn events_view(events: Seq<AppEvent>) -> Seq<AppEventView> {
    events.map_values(|e: AppEvent| e@)
}

/// Commands for the monitor thread.
#[derive(Debug)]
pub enum MonitorCommand {
    /// Monitor this address; `None` stops monitoring.
    SetTarget(Option<String>),
    /// Scan the local network for services.
    Scan,
    /// Test the connection to this address.
    Test(String),
}

/// A command in terms of plain values.
pub enum MonitorCommandView {
    SetTarget(Option<Seq<char>>),
    Scan,
    Test(Seq<char>),
}

impl View for MonitorCommand {
    type V = MonitorCommandView;

    open spec fn view(&self) -> MonitorCommandView {
        match self {
            MonitorCommand::SetTarget(addr) => MonitorCommandView::SetTarget(opt_text(*addr)),
            MonitorCommand::Scan => MonitorCommandView::Scan,
            MonitorCommand::Test(addr) => MonitorCommandView::Test(addr@),
        }
    }
}

} // verus!
