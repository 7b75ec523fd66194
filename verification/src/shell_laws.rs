//! What the tray, the native windows and the icon do, call by call, in plain numbers and texts.
//!
//! Each law is about the result of a call, whatever it is.
use vstd::prelude::*;

use crate::autostart;
use crate::events::AppEvent;
use crate::icon::{
    build_icon, icon_pixel, inside_bolt, inside_rounded_square, Point, Sample,
};
use crate::protocol;
use crate::tray::{
    autostart_switched, icon_event, menu, menu_event, sync_autostart_checked, IconEvent, MenuAction,
    MenuEntry, Tray,
};
use crate::win32::{
    activate_existing_window, ensure_single_instance, hide_window, hides_in_tray,
    hook_minimize_to_tray, notify_hidden, set_event_tx, show_window, wide, Activation, Registration,
    WindowCall, WindowState,
};

verus! {

/// The ports, the path and the times that both ends agree on, in seconds and nanoseconds.
pub proof fn law_numbers_of_the_protocol()
    ensures
        protocol::WS_PORT == 8123 && protocol::DISCOVERY_PORT == 8124,
        protocol::WS_PATH@ == "/ws"@,
        protocol::HEARTBEAT_INTERVAL == 3_000_000_000,
        protocol::HEARTBEAT_TIMEOUT == 60_000_000_000,
        protocol::COUNTDOWN_SECONDS == 60 && protocol::SNOOZE_LATER_SECONDS == 30,
        crate::heartbeat::STEP_TIMEOUT == 4_000_000_000,
{
}

/// The names under which the system knows the program.
pub proof fn law_names_of_the_program()
    ensures
        autostart::TASK_NAME@ == "auto-shutdown"@ && autostart::TASK_AUTHOR@ == "auto-shutdown"@,
        autostart::TASK_DESCRIPTION@ == "自动关机守护：用户登录时自动启动"@,
        autostart::TASK_TIME_LIMIT@ == "PT0S"@,
        crate::win32::SINGLE_INSTANCE_MUTEX@ == "auto-shutdown-single-instance"@,
        crate::tray::TOOLTIP@ == "自动关机守护：心跳失联自动关机"@,
{
}

/// The menu has an entry to show the window, the switch with its mark, and an entry to quit, with
/// lines between them.
pub proof fn law_menu_has_its_entries(on: bool, r: Vec<MenuEntry>)
    requires
        call_ensures(menu, (on,), r),
    ensures
        r@.len() == 5,
        r@[0] matches MenuEntry::Item { id, label } && id@ == "show"@ && label@ == "显示主窗口"@,
        r@[1] is Separator && r@[3] is Separator,
        r@[2] matches MenuEntry::Check { id, label, checked } && id@ == "autostart"@ && label@
            == "开机启动"@ && checked == on,
        r@[4] matches MenuEntry::Item { id, label } && id@ == "quit"@ && label@ == "退出程序"@,
{
    let views = r@.map_values(|e: MenuEntry| e@);
    assert(views.len() == r@.len());
    assert(views[0] == r@[0]@ && views[1] == r@[1]@ && views[2] == r@[2]@ && views[3] == r@[3]@
        && views[4] == r@[4]@);
}

/// A click does what its entry says; the switch asks for the other setting, and what is no entry
/// does nothing.
pub proof fn law_click_does_what_the_entry_says(id: &str, checked: bool, r: MenuAction)
    requires
        call_ensures(menu_event, (id, checked), r),
    ensures
        id@ == "show"@ <==> (r matches MenuAction::Send(event) && event is TrayShow),
        id@ == "quit"@ <==> (r matches MenuAction::Send(event) && event is Quit),
        id@ == "autostart"@ <==> r is SwitchAutostart,
        r matches MenuAction::SwitchAutostart(on) ==> on == !checked,
        id@ != "show"@ && id@ != "quit"@ && id@ != "autostart"@ ==> r is Ignore,
{
    crate::tray::law_every_entry_does_something(checked);
    assert(r is Send <==> r@ is Send);
    assert(r is SwitchAutostart <==> r@ is SwitchAutostart);
    assert(r is Ignore <==> r@ is Ignore);
    if let MenuAction::Send(event) = r {
        assert(event is TrayShow <==> event@ is TrayShow);
        assert(event is Quit <==> event@ is Quit);
    }
}

/// A double click on the icon shows the window; nothing else does anything.
pub proof fn law_double_click_shows_the_window(event: IconEvent, r: Option<AppEvent>)
    requires
        call_ensures(icon_event, (event,), r),
    ensures
        r is Some <==> event is DoubleClick,
        r matches Some(e) ==> e is TrayShow,
{
    if let Some(e) = r {
        assert(e is TrayShow <==> e@ is TrayShow);
    }
}

/// The mark follows what it is set to, where there is one.
pub proof fn law_mark_follows(tray: &mut Tray, checked: bool)
    requires
        call_ensures(sync_autostart_checked, (tray, checked), ()),
    ensures
        old(tray).autostart_item is Some ==> final(tray).autostart_item == Some(checked),
        old(tray).autostart_item is None ==> final(tray).autostart_item is None,
{
}

/// A switch that succeeded moves the mark and is reported; one that failed moves nothing and is
/// logged with its reason.
pub proof fn law_switch_from_the_tray(
    tray: &mut Tray,
    target: bool,
    result: Result<(), String>,
    r: Result<AppEvent, String>,
)
    requires
        call_ensures(autostart_switched, (tray, target, result), r),
    ensures
        result is Ok ==> {
            &&& r matches Ok(AppEvent::AutostartChanged(on)) && on == target
            &&& old(tray).autostart_item is Some ==> final(tray).autostart_item == Some(target)
            &&& old(tray).autostart_item is None ==> final(tray).autostart_item is None
        },
        result matches Err(e) ==> {
            &&& r matches Err(line) && line@ == "[tray] 切换开机启动失败: "@ + e@
            &&& final(tray).autostart_item == old(tray).autostart_item
        },
{
    if let Ok(event) = r {
        assert(event is AutostartChanged <==> event@ is AutostartChanged);
    }
}

/// The first to register is the one who is told, and nobody is before.
pub proof fn law_first_to_register_is_told<T>(
    registration: &mut Registration<T>,
    tx: T,
    told: Option<(&T, AppEvent)>,
    before: Option<(&T, AppEvent)>,
)
    requires
        call_ensures(notify_hidden::<T>, (&*old(registration),), before),
        call_ensures(set_event_tx::<T>, (registration, tx), ()),
        call_ensures(notify_hidden::<T>, (&*final(registration),), told),
    ensures
        before is None <==> old(registration).tx is None,
        told matches Some((to, event)) && event is WindowHidden && (match old(registration).tx {
            Some(first) => *to == first,
            None => *to == tx,
        }),
{
    if let Some((to, event)) = told {
        assert(event is WindowHidden <==> event@ is WindowHidden);
    }
}

/// A text in UTF-16: nothing but a zero for no text, and one more character adds its unit, or its
/// two surrogates, in front of the zero.
pub proof fn law_text_in_utf16(
    nothing: &str,
    fewer: &str,
    more: &str,
    c: char,
    none: Vec<u16>,
    before: Vec<u16>,
    after: Vec<u16>,
)
    requires
        nothing@.len() == 0,
        more@ == fewer@.push(c),
        call_ensures(wide, (nothing,), none),
        call_ensures(wide, (fewer,), before),
        call_ensures(wide, (more,), after),
    ensures
        none@ == seq![0u16],
        before@.len() > 0 && after@.last() == 0,
        ({
            let n = before@.len() - 1;
            &&& forall|i: int| 0 <= i < n ==> #[trigger] after@[i] == before@[i]
            &&& (c as int) < 0x10000 ==> after@.len() == n + 2 && after@[n] == c as int
            &&& c as int >= 0x10000 ==> {
                &&& after@.len() == n + 3
                &&& 0xD800 <= after@[n] < 0xDC00 && 0xDC00 <= after@[n + 1] < 0xE000
                &&& c as int == 0x10000 + (after@[n] - 0xD800) * 0x400 + (after@[n + 1] - 0xDC00)
            }
        }),
{
    assert(none@ =~= seq![0u16]);
    assert(more@.drop_last() =~= fewer@);
    assert(more@.last() == c);
    let units = crate::win32::utf16(fewer@);
    let all = crate::win32::utf16(more@);
    assert(all == units + crate::win32::utf16_units(c));
    assert(before@ == units.push(0));
    assert(after@ == all.push(0));
    assert(c as u32 <= 0x10FFFF);
}

/// The first instance goes on, and any other ends. A second start shows the window where it is there,
/// and otherwise looks again after a tenth of a second, twenty times at most.
pub proof fn law_second_start_shows_the_first(
    exists_already: bool,
    alone: bool,
    looks: u32,
    found: bool,
    r: Activation,
)
    requires
        call_ensures(ensure_single_instance, (exists_already,), alone),
        call_ensures(activate_existing_window, (looks, found), r),
    ensures
        alone <==> !exists_already,
        r is GiveUp <==> looks >= 20,
        r is Show <==> looks < 20 && found,
        r matches Activation::Wait(ms) ==> ms == 100,
{
}

/// A window is shown where it is hidden, restored where it is an icon, and then raised and made the
/// active one. A window that is not there is left alone.
pub proof fn law_window_is_shown_and_hidden(
    w: WindowState,
    shown: Vec<WindowCall>,
    nobody: Vec<WindowCall>,
    found: bool,
    hidden: Vec<WindowCall>,
)
    requires
        call_ensures(show_window, (Some(w),), shown),
        call_ensures(show_window, (None,), nobody),
        call_ensures(hide_window, (found,), hidden),
    ensures
        nobody@.len() == 0,
        !w.visible ==> shown@ == seq![WindowCall::Show, WindowCall::Raise, WindowCall::Activate],
        w.visible && w.iconic ==> shown@ == seq![
            WindowCall::Restore,
            WindowCall::Raise,
            WindowCall::Activate,
        ],
        w.visible && !w.iconic ==> shown@ == seq![WindowCall::Raise, WindowCall::Activate],
        found ==> hidden@ == seq![WindowCall::Hide],
        !found ==> hidden@.len() == 0,
{
    assert(seq![WindowCall::Show] + seq![WindowCall::Raise, WindowCall::Activate] =~= seq![
        WindowCall::Show,
        WindowCall::Raise,
        WindowCall::Activate,
    ]);
    assert(seq![WindowCall::Restore] + seq![WindowCall::Raise, WindowCall::Activate] =~= seq![
        WindowCall::Restore,
        WindowCall::Raise,
        WindowCall::Activate,
    ]);
}

/// A message hides the window exactly if it is a command of the title bar and, of its lowest sixteen
/// bits, all but the lowest four are those of minimizing.
pub proof fn law_minimizing_hides(msg: u32, wparam: usize, r: bool)
    requires
        call_ensures(hides_in_tray, (msg, wparam), r),
    ensures
        r <==> msg == 274 && wparam % 65536 / 16 == 3842,
{
    assert(wparam & 0xFFF0 == 0xF020 <==> wparam % 65536 / 16 == 3842) by (bit_vector);
}

/// The messages of a window are watched where it is there and they can be; otherwise the log says
/// why not.
pub proof fn law_window_is_watched(title: &str, previous: Option<isize>, r: Result<isize, String>)
    requires
        call_ensures(hook_minimize_to_tray, (title, previous), r),
    ensures
        previous is None ==> (r matches Err(line) && line@ == "[win32] 未找到窗口，无法拦截最小化: "@
            + title@),
        previous == Some(0isize) ==> (r matches Err(line) && line@
            == "[win32] SetWindowLongPtrW 失败，最小化将只缩到任务栏"@),
        previous matches Some(p) ==> (p != 0 ==> r == Ok::<isize, String>(p)),
{
}

/// A point lies in the square with round corners exactly if it lies in the square and, where it is
/// nearer than the radius to two sides, also in the circle that rounds their corner.
pub proof fn law_square_has_round_corners(p: Point, size: i16, radius: i16, r: bool)
    requires
        call_ensures(inside_rounded_square, (p, size, radius), r),
    ensures
        ({
            let dx = if 2 * p.x <= size {
                radius - p.x
            } else {
                radius - (size - p.x)
            };
            let dy = if 2 * p.y <= size {
                radius - p.y
            } else {
                radius - (size - p.y)
            };
            r <==> 0 <= p.x <= size && 0 <= p.y <= size && (dx > 0 && dy > 0 ==> dx * dx + dy * dy
                <= radius * radius)
        }),
{
}

/// The edge from `lo` up to `hi` passes the height of the point, to the right of it.
pub open spec fn passes(p: Point, lo: Point, hi: Point) -> bool {
    lo.y <= p.y < hi.y && (p.x - lo.x) * (hi.y - lo.y) < (hi.x - lo.x) * (p.y - lo.y)
}

/// The edge between two corners passes to the right of the point, whichever of them is higher.
pub open spec fn meets(p: Point, a: Point, b: Point) -> bool {
    passes(p, a, b) || passes(p, b, a)
}

/// An edge is the same from either end.
proof fn lemma_meets(p: Point, a: Point, b: Point)
    ensures
        crate::icon::crosses(p, a, b) == meets(p, a, b),
{
    if (a.y > p.y) != (b.y > p.y) && b.y <= a.y {
        let x = p.x - a.x;
        let y = p.y - a.y;
        let w = b.x - a.x;
        let h = b.y - a.y;
        assert(p.x - b.x == x - w && p.y - b.y == y - h && a.x - b.x == -w && a.y - b.y == -h);
        assert((x - w) * (-h) < (-w) * (y - h) <==> x * h > w * y) by (nonlinear_arith);
    }
}

/// A point lies in a triangle exactly if an odd number of its edges pass to the right of it.
pub proof fn law_point_in_a_triangle(p: Point, poly: &[Point], a: Point, b: Point, c: Point, r: bool)
    requires
        poly@ == seq![a, b, c],
        call_ensures(inside_bolt, (p, poly), r),
    ensures
        r <==> (meets(p, a, b) != meets(p, b, c)) != meets(p, c, a),
{
    lemma_meets(p, a, c);
    lemma_meets(p, b, a);
    lemma_meets(p, c, b);
    reveal_with_fuel(crate::icon::crossings, 4);
    assert(poly@.last() == c);
}

/// One more corner adds or takes away the triangle that it makes with the first and the last corner.
pub proof fn law_polygon_grows_by_triangles(
    p: Point,
    fewer: &[Point],
    v: Point,
    more: &[Point],
    triangle: &[Point],
    before: bool,
    part: bool,
    after: bool,
)
    requires
        fewer@.len() > 0,
        more@ == fewer@.push(v),
        triangle@ == seq![fewer@.last(), v, fewer@.first()],
        call_ensures(inside_bolt, (p, fewer), before),
        call_ensures(inside_bolt, (p, more), after),
        call_ensures(inside_bolt, (p, triangle), part),
    ensures
        after == (before != part),
        fewer@.len() == 1 ==> !before,
{
    let f = fewer@.first();
    let l = fewer@.last();
    lemma_meets(p, l, f);
    lemma_meets(p, f, l);
    lemma_meets(p, f, f);
    lemma_grown(p, fewer@, v, fewer@.len());
    reveal_with_fuel(crate::icon::crossings, 4);
    assert(triangle@.last() == f);
    let n = fewer@.len();
    assert(more@[n as int] == v && more@[n - 1] == l);
    let all = crate::icon::crossings(p, more@, n + 1);
    assert(all == crate::icon::crossings(p, more@, n) + if crate::icon::crosses(p, v, l) {
        1nat
    } else {
        0nat
    });
}

/// All edges but the first one stay.
proof fn lemma_grown(p: Point, fewer: Seq<Point>, v: Point, n: nat)
    requires
        1 <= n <= fewer.len(),
    ensures
        crate::icon::crossings(p, fewer.push(v), n) + (if crate::icon::crosses(
            p,
            fewer.first(),
            fewer.last(),
        ) {
            1nat
        } else {
            0nat
        }) == crate::icon::crossings(p, fewer, n) + (if crate::icon::crosses(p, fewer.first(), v) {
            1nat
        } else {
            0nat
        }),
    decreases n,
{
    let more = fewer.push(v);
    reveal_with_fuel(crate::icon::crossings, 2);
    assert(more.last() == v);
    assert(more[n - 1] == fewer[n - 1]);
    if n > 1 {
        lemma_grown(p, fewer, v, (n - 1) as nat);
        assert(more[n - 2] == fewer[n - 2]);
    }
}

/// How many of the first `n` are true.
pub open spec fn count(hits: Seq<bool>, n: nat) -> nat
    decreases n,
{
    if n == 0 {
        0
    } else {
        count(hits, (n - 1) as nat) + if hits[n - 1] {
            1nat
        } else {
            0nat
        }
    }
}

/// The middle of a sample: a pixel has four rows of four, each a quarter of a pixel wide.
pub open spec fn middle(x: usize, y: usize, k: int) -> Point {
    Point { x: (8 * x + 2 * (k % 4) + 1) as i16, y: (8 * y + 2 * (k / 4) + 1) as i16 }
}

/// A pixel is the mean of its sixteen samples, white on the bolt and amber on the square around it. It
/// is clear where no sample hits either, and opaque otherwise.
pub proof fn law_pixel_is_the_mean_of_its_samples(
    x: usize,
    y: usize,
    poly: &[Point],
    bolts: Seq<bool>,
    squares: Seq<bool>,
    r: [u8; 4],
)
    requires
        x < 32,
        y < 32,
        call_ensures(icon_pixel, (x, y), r),
        poly@ == seq![
            Point { x: 152, y: 16 },
            Point { x: 64, y: 144 },
            Point { x: 120, y: 144 },
            Point { x: 96, y: 240 },
            Point { x: 192, y: 104 },
            Point { x: 132, y: 104 },
        ],
        bolts.len() == 16,
        squares.len() == 16,
        forall|k: int|
            0 <= k < 16 ==> call_ensures(
                inside_bolt,
                (middle(x, y, k), poly),
                #[trigger] bolts[k],
            ),
        forall|k: int|
            0 <= k < 16 ==> call_ensures(
                inside_rounded_square,
                (middle(x, y, k), 256i16, 56i16),
                #[trigger] squares[k],
            ),
    ensures
        ({
            let around = Seq::new(16, |k: int| squares[k] && !bolts[k]);
            let b = count(bolts, 16);
            let s = count(around, 16);
            &&& r@[0] == (255 * b + 245 * s) / 16
            &&& r@[1] == (255 * b + 158 * s) / 16
            &&& r@[2] == (255 * b + 11 * s) / 16
            &&& r@[3] == if b + s == 0 {
                0int
            } else {
                255
            }
        }),
{
    let around = Seq::new(16, |k: int| squares[k] && !bolts[k]);
    assert(poly@ =~= crate::icon::bolt_points());
    lemma_counted(x, y, poly, bolts, squares, 16);
    let b = count(bolts, 16);
    let s = count(around, 16);
    assert(b + s <= 16);
    assert(r@[0] == crate::icon::channel_at(x as nat, y as nat, 0));
    assert(r@[1] == crate::icon::channel_at(x as nat, y as nat, 1));
    assert(r@[2] == crate::icon::channel_at(x as nat, y as nat, 2));
    assert(r@[3] == crate::icon::channel_at(x as nat, y as nat, 3));
}

/// The samples are counted.
proof fn lemma_counted(
    x: usize,
    y: usize,
    poly: &[Point],
    bolts: Seq<bool>,
    squares: Seq<bool>,
    n: nat,
)
    requires
        n <= 16,
        x < 32,
        y < 32,
        poly@ == crate::icon::bolt_points(),
        bolts.len() == 16,
        squares.len() == 16,
        forall|k: int|
            0 <= k < 16 ==> call_ensures(
                inside_bolt,
                (middle(x, y, k), poly),
                #[trigger] bolts[k],
            ),
        forall|k: int|
            0 <= k < 16 ==> call_ensures(
                inside_rounded_square,
                (middle(x, y, k), 256i16, 56i16),
                #[trigger] squares[k],
            ),
    ensures
        ({
            let around = Seq::new(16, |k: int| squares[k] && !bolts[k]);
            &&& count(bolts, n) == crate::icon::samples(x as nat, y as nat, Sample::Bolt, n)
            &&& count(around, n) == crate::icon::samples(x as nat, y as nat, Sample::Square, n)
            &&& count(bolts, n) + count(around, n) <= n
        }),
    decreases n,
{
    let around = Seq::new(16, |k: int| squares[k] && !bolts[k]);
    if n > 0 {
        let k = n - 1;
        lemma_counted(x, y, poly, bolts, squares, k as nat);
        assert(middle(x, y, k) == crate::icon::sample_point(x as nat, y as nat, k as nat));
        assert(around[k] == (squares[k] && !bolts[k]));
    }
}

/// The icon is its pixels, row by row, four bytes each.
pub proof fn law_icon_is_its_pixels(x: usize, y: usize, pixel: [u8; 4], r: Vec<u8>, c: int)
    requires
        x < 32,
        y < 32,
        0 <= c < 4,
        call_ensures(icon_pixel, (x, y), pixel),
        call_ensures(build_icon, (), r),
    ensures
        r@.len() == 4096,
        r@[128 * y + 4 * x + c] == pixel@[c],
{
    let i = 128 * y + 4 * x + c;
    assert(i / 4 % 32 == x && i / 128 == y && i % 4 == c);
    assert(pixel@[c] == crate::icon::channel_at(x as nat, y as nat, c as nat));
}

} // verus!
