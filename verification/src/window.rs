//! What the main window shows.
use vstd::prelude::*;

use crate::app::{AppModel, HintView, ModelView};
use crate::events::HeartStatus;
use crate::monitor::copy_text;
use crate::protocol::WS_PORT;
use crate::text;

verus! {

/// Name in the title bar.
pub const TITLE_BAR: &'static str = "自动关机守护";

/// Label above the address that is monitored.
pub const TARGET_LABEL: &'static str = "监控目标";

/// Head of the configuration panel.
pub const CONFIG_LABEL: &'static str = "服务配置";

/// Label of the test button.
pub const TEST_LABEL: &'static str = "测试";

/// Label of the save button.
pub const SAVE_LABEL: &'static str = "保存并启动监控";

/// Label of the switch for start at logon.
pub const AUTOSTART_LABEL: &'static str = "开机启动";

/// Head of the instructions.
pub const USAGE_LABEL: &'static str = "使用说明";

/// The instructions, line by line.
pub const USAGE_1: &'static str =
    "1. 一台常驻的 WebSocket 心跳服务端（默认端口 8123），任何 socket 服务均可；";

/// Second line of the instructions.
pub const USAGE_2: &'static str =
    "2. 本软件每 3 秒向它发送一次加密心跳，只要能收到应答，就说明服务在线；";

/// Third line of the instructions.
pub const USAGE_3: &'static str =
    "3. 如果连续 60 秒收不到任何应答，判定服务离线，弹出置顶的 60 秒关机倒计时；";

/// Fourth line of the instructions.
pub const USAGE_4: &'static str =
    "4. 倒计时无人干预会自动关机；也可选择立即关机 / 取消 / 稍后（30 秒后再次提醒）。";

/// Line below the instructions.
pub const USAGE_TIP: &'static str =
    "提示: 关闭或最小化窗口都会收到托盘；右键托盘图标可显示窗口或退出。";

/// Colour of the status.
#[derive(Clone, Copy, Debug, PartialEq, Eq, Structural)]
pub enum Tone {
    Muted,
    Warning,
    Success,
    Danger,
}

/// Picture for the status.
#[derive(Clone, Copy, Debug, PartialEq, Eq, Structural)]
pub enum StatusIcon {
    Info,
    BatteryCharging,
    CircleCheck,
    TriangleAlert,
}

/// Kind of a banner.
#[derive(Clone, Copy, Debug, PartialEq, Eq, Structural)]
pub enum BannerKind {
    Info,
    Success,
    Error,
}

/// A line in a coloured box.
#[derive(Debug)]
pub struct Banner {
    pub kind: BannerKind,
    pub text: String,
}

/// A banner in terms of plain values.
pub struct BannerView {
    pub kind: BannerKind,
    pub text: Seq<char>,
}

impl View for Banner {
    type V = BannerView;

    open spec fn view(&self) -> BannerView {
        BannerView { kind: self.kind, text: self.text@ }
    }
}

/// An optional banner in terms of plain values.
pub open spec fn opt_banner(banner: Option<Banner>) -> Option<BannerView> {
    match banner {
        Some(b) => Some(b@),
        None => None,
    }
}

/// What changes in the main window, from top to bottom.
#[derive(Debug)]
pub struct MainWindow {
    /// Address that is monitored.
    pub target: String,
    /// Status, shown as a tooltip.
    pub status_text: String,
    /// Colour of the status.
    pub status_tone: Tone,
    /// Picture for the status.
    pub status_icon: StatusIcon,
    /// Why the heartbeat is lost.
    pub lost: Option<Banner>,
    /// Whether the configuration panel is unfolded, and its arrow points up.
    pub config_open: bool,
    /// Label of the scan button.
    pub scan_label: String,
    /// Whether the scan button can be pressed.
    pub scan_disabled: bool,
    /// Whether the switch for start at logon is on.
    pub autostart: bool,
    /// Line for the user.
    pub hint: Option<Banner>,
    /// Result of the last connection test.
    pub test: Option<Banner>,
}

/// The main window in terms of plain values.
pub struct MainWindowView {
    pub target: Seq<char>,
    pub status_text: Seq<char>,
    pub status_tone: Tone,
    pub status_icon: StatusIcon,
    pub lost: Option<BannerView>,
    pub config_open: bool,
    pub scan_label: Seq<char>,
    pub scan_disabled: bool,
    pub autostart: bool,
    pub hint: Option<BannerView>,
    pub test: Option<BannerView>,
}

impl View for MainWindow {
    type V = MainWindowView;

    open spec fn view(&self) -> MainWindowView {
        MainWindowView {
            target: self.target@,
            status_text: self.status_text@,
            status_tone: self.status_tone,
            status_icon: self.status_icon,
            lost: opt_banner(self.lost),
            config_open: self.config_open,
            scan_label: self.scan_label@,
            scan_disabled: self.scan_disabled,
            autostart: self.autostart,
            hint: opt_banner(self.hint),
            test: opt_banner(self.test),
        }
    }
}

/// The words for a status.
pub open spec fn status_words(status: HeartStatus) -> Seq<char> {
    match status {
        HeartStatus::NotConfigured => "尚未配置服务地址"@,
        HeartStatus::Waiting => "等待首次连通心跳服务"@,
        HeartStatus::Connected => "服务在线，心跳正常"@,
        HeartStatus::Lost => "心跳丢失！服务可能已离线"@,
    }
}

/// The colour of a status.
pub open spec fn tone_of(status: HeartStatus) -> Tone {
    match status {
        HeartStatus::NotConfigured => Tone::Muted,
        HeartStatus::Waiting => Tone::Warning,
        HeartStatus::Connected => Tone::Success,
        HeartStatus::Lost => Tone::Danger,
    }
}

/// The picture for a status.
pub open spec fn icon_of(status: HeartStatus) -> StatusIcon {
    match status {
        HeartStatus::NotConfigured => StatusIcon::Info,
        HeartStatus::Waiting => StatusIcon::BatteryCharging,
        HeartStatus::Connected => StatusIcon::CircleCheck,
        HeartStatus::Lost => StatusIcon::TriangleAlert,
    }
}

/// The banner for a line.
pub open spec fn hint_banner(hint: Option<HintView>) -> Option<BannerView> {
    match hint {
        Some(h) => Some(
            BannerView {
                kind: if h.is_error {
                    BannerKind::Error
                } else {
                    BannerKind::Info
                },
                text: h.text,
            },
        ),
        None => None,
    }
}

/// The banner for a test result.
pub open spec fn test_banner(result: Option<Result<Seq<char>, Seq<char>>>) -> Option<BannerView> {
    match result {
        Some(Ok(text)) => Some(BannerView { kind: BannerKind::Success, text }),
        Some(Err(text)) => Some(BannerView { kind: BannerKind::Error, text }),
        None => None,
    }
}

/// What the main window shows of its state.
pub open spec fn shown(model: ModelView) -> MainWindowView {
    MainWindowView {
        target: match model.saved_server {
            Some(addr) => addr,
            None => "尚未配置"@,
        },
        status_text: status_words(model.status),
        status_tone: tone_of(model.status),
        status_icon: icon_of(model.status),
        lost: match model.lost_detail {
            Some(detail) => Some(
                BannerView { kind: BannerKind::Error, text: "丢失原因: "@ + detail },
            ),
            None => None,
        },
        config_open: model.config_open,
        scan_label: if model.scanning {
            "扫描中…"@
        } else {
            "扫描局域网"@
        },
        scan_disabled: model.scanning,
        autostart: model.autostart,
        hint: hint_banner(model.hint),
        test: test_banner(model.test_result),
    }
}

/// The words in the empty address field.
pub fn input_placeholder() -> (r: String)
    ensures
        r@ == "例如: 192.168.1.100（默认端口 "@ + text::decimal_digits(WS_PORT as nat) + "）"@,
{
    text::join3(
        "例如: 192.168.1.100（默认端口 ",
        text::decimal(WS_PORT as u64).as_str(),
        "）",
    )
}

/// The words, colour and picture for a status.
fn status_badge(status: HeartStatus) -> (r: (&'static str, Tone, StatusIcon))
    ensures
        r.0@ == status_words(status),
        r.1 == tone_of(status),
        r.2 == icon_of(status),
{
    match status {
        HeartStatus::NotConfigured => ("尚未配置服务地址", Tone::Muted, StatusIcon::Info),
        HeartStatus::Waiting => (
            "等待首次连通心跳服务",
            Tone::Warning,
            StatusIcon::BatteryCharging,
        ),
        HeartStatus::Connected => ("服务在线，心跳正常", Tone::Success, StatusIcon::CircleCheck),
        HeartStatus::Lost => (
            "心跳丢失！服务可能已离线",
            Tone::Danger,
            StatusIcon::TriangleAlert,
        ),
    }
}

impl AppModel {
    /// What the main window shows.
    pub fn render(&self) -> (r: MainWindow)
        ensures
            r@ == shown(self@),
    {
        let (status_text, status_tone, status_icon) = status_badge(self.status);
        let target = match copy_text(&self.saved_server) {
            Some(addr) => addr,
            None => "尚未配置".to_owned(),
        };
        let lost = match &self.lost_detail {
            Some(detail) => Some(
                Banner { kind: BannerKind::Error, text: text::join("丢失原因: ", detail.as_str()) },
            ),
            None => None,
        };
        let hint = match &self.hint {
            Some(h) => Some(
                Banner {
                    kind: if h.is_error {
                        BannerKind::Error
                    } else {
                        BannerKind::Info
                    },
                    text: h.text.clone(),
                },
            ),
            None => None,
        };
        let test = match &self.test_result {
            Some(Ok(text)) => Some(Banner { kind: BannerKind::Success, text: text.clone() }),
            Some(Err(text)) => Some(Banner { kind: BannerKind::Error, text: text.clone() }),
            None => None,
        };
        let scan_label = if self.scanning {
            "扫描中…".to_owned()
        } else {
            "扫描局域网".to_owned()
        };
        MainWindow {
            target,
            status_text: status_text.to_owned(),
            status_tone,
            status_icon,
            lost,
            config_open: self.config_open,
            scan_label,
            scan_disabled: self.scanning,
            autostart: self.autostart,
            hint,
            test,
        }
    }
}

} // verus!
