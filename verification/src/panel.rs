//! The state of the main window that the panels read and change, and what
//! the panels compute from it: the traffic view, the plotted samples, the
//! dataset count and the connection indicator.
use vstd::prelude::*;

use crate::console::{direction_name, Packet, Print, SerialDirection, UiColor};
use crate::devices::{texts, SerialDevices};
use crate::selection::{DeviceSelection, SelectionView, WindowFeedback};
use crate::settings::GuiSettingsContainer;
use crate::text::{decimal, decimal_text};

verus! {

/// The state of the main window.
pub struct MyApp {
    pub connected_to_device: bool,
    pub command: String,
    pub selection: DeviceSelection,
    /// How many of the latest samples are plotted.
    pub plotting_range: usize,
    pub start_freq: String,
    pub end_freq: String,
    pub empty_freq: String,
    pub empty_qv: String,
    pub sample_name: String,
    pub sample_size: String,
    pub sample_freq: String,
    pub sample_qv: String,
    pub sample_dk: String,
    pub sample_df: String,
    pub select_cal_path: String,
    pub console: Vec<Print>,
    pub gui_conf: GuiSettingsContainer,
    pub history: Vec<String>,
    pub index: usize,
    pub eol: String,
    pub show_sent_cmds: bool,
    pub show_timestamps: bool,
    pub save_raw: bool,
    pub do_not_show_clear_warning: bool,
}

/// The first line of the debug console.
pub open spec fn waiting_message() -> Seq<char> {
    "waiting for serial connection..,"@
}

/// A line of the traffic view for a packet going in direction `dir` with text
/// `payload`, sent or received `time` seconds after the recording started:
/// with the direction where sent commands are shown, with the time where
/// time stamps are shown; a sent packet is shown only where sent commands are.
pub open spec fn traffic_line(
    show_sent_cmds: bool,
    show_timestamps: bool,
    dir: SerialDirection,
    payload: Seq<char>,
    time: Seq<char>,
) -> Option<Seq<char>> {
    if show_sent_cmds && show_timestamps {
        Some("["@ + direction_name(dir) + "] t + "@ + time + "s: "@ + payload + "\n"@)
    } else if show_sent_cmds {
        Some("["@ + direction_name(dir) + "]: "@ + payload + "\n"@)
    } else if dir == SerialDirection::Receive && show_timestamps {
        Some("t + "@ + time + "s: "@ + payload + "\n"@)
    } else if dir == SerialDirection::Receive {
        Some(payload + "\n"@)
    } else {
        None
    }
}

/// The text of an optional line, empty for none.
pub open spec fn line_or_empty(l: Option<Seq<char>>) -> Seq<char> {
    match l {
        Some(s) => s,
        None => Seq::empty(),
    }
}

/// The traffic view of the first `n` packets of `ps`, whose time stamps are
/// the texts `times`, one after the other.
pub open spec fn traffic_upto(
    show_sent_cmds: bool,
    show_timestamps: bool,
    ps: Seq<Packet>,
    times: Seq<Seq<char>>,
    n: nat,
) -> Seq<char>
    decreases n,
{
    if n == 0 {
        Seq::empty()
    } else {
        let k = (n - 1) as nat;
        traffic_upto(show_sent_cmds, show_timestamps, ps, times, k) + line_or_empty(
            traffic_line(show_sent_cmds, show_timestamps, ps[k as int].direction, ps[k as int].payload@, times[k as int]),
        )
    }
}

/// The first sample that is plotted when a series holds `first_len` samples:
/// the latest `plotting_range` ones are plotted.
pub open spec fn window_start(first_len: usize, plotting_range: usize) -> int {
    if first_len > plotting_range {
        first_len - plotting_range
    } else {
        0
    }
}

/// The text above the dataset labels.
pub open spec fn dataset_count_line(n: nat) -> Seq<char> {
    if n == 1 {
        "Detected 1 Dataset:"@
    } else {
        "Detected "@ + decimal(n) + " Datasets:"@
    }
}

/// How the connection indicator is drawn.
#[derive(Clone, Copy, Debug, PartialEq, Eq, Structural)]
pub struct ConnectionIndicator {
    pub fill: UiColor,
    pub stroke: UiColor,
    /// A spinner turns beside the indicator while no device is connected.
    pub spinner: bool,
}

/// The indicator: green while connected, red with a spinner while not.
pub fn connection_indicator(connected: bool) -> (c: ConnectionIndicator)
    ensures
        connected ==> c == (ConnectionIndicator {
            fill: UiColor::DarkGreen,
            stroke: UiColor::Green,
            spinner: false,
        }),
        !connected ==> c == (ConnectionIndicator {
            fill: UiColor::DarkRed,
            stroke: UiColor::Red,
            spinner: true,
        }),
{
    if !connected {
        ConnectionIndicator { fill: UiColor::DarkRed, stroke: UiColor::Red, spinner: true }
    } else {
        ConnectionIndicator { fill: UiColor::DarkGreen, stroke: UiColor::Green, spinner: false }
    }
}

/// The text above the dataset labels (see `dataset_count_line`).
pub fn dataset_count_text(n: usize) -> (r: String)
    ensures
        r@ == dataset_count_line(n as nat),
{
    if n == 1 {
        String::from_str("Detected 1 Dataset:")
    } else {
        let mut r = String::from_str("Detected ");
        let num = decimal_text(n);
        r.append(num.as_str());
        r.append(" Datasets:");
        r
    }
}

impl MyApp {
    /// The state of a freshly opened window: not connected, no port picked,
    /// the latest samples all plotted, the measurement fields empty or "0",
    /// the console waiting for a connection, sent commands and time stamps
    /// shown, raw data not saved, and the end of line `\r\n` (written with
    /// backslashes).
    pub fn new(devices: SerialDevices, gui_conf: GuiSettingsContainer) -> (app: Self)
        ensures
            !app.connected_to_device,
            app.command@ == Seq::<char>::empty(),
            app.selection@ == (SelectionView {
                device: Seq::empty(),
                old_device: Seq::empty(),
                device_idx: 0,
                window: WindowFeedback::Hidden,
                registry: devices@,
            }),
            app.plotting_range == usize::MAX,
            app.start_freq@ == Seq::<char>::empty(),
            app.end_freq@ == Seq::<char>::empty(),
            app.empty_freq@ == "0"@,
            app.empty_qv@ == "0"@,
            app.sample_name@ == Seq::<char>::empty(),
            app.sample_size@ == Seq::<char>::empty(),
            app.sample_freq@ == "0"@,
            app.sample_qv@ == "0"@,
            app.sample_dk@ == "0"@,
            app.sample_df@ == "0"@,
            app.select_cal_path@ == Seq::<char>::empty(),
            app.console@.len() == 1,
            app.console@[0] matches Print::Message(s) && s@ == waiting_message(),
            app.gui_conf == gui_conf,
            app.history@.len() == 0,
            app.index == 0,
            app.eol@ == "\\r\\n"@,
            app.show_sent_cmds,
            app.show_timestamps,
            !app.save_raw,
            !app.do_not_show_clear_warning,
    {
        MyApp {
            connected_to_device: false,
            command: String::new(),
            selection: DeviceSelection::new(devices),
            plotting_range: usize::MAX,
            start_freq: String::new(),
            end_freq: String::new(),
            empty_freq: String::from_str("0"),
            empty_qv: String::from_str("0"),
            sample_name: String::new(),
            sample_size: String::new(),
            sample_freq: String::from_str("0"),
            sample_qv: String::from_str("0"),
            sample_dk: String::from_str("0"),
            sample_df: String::from_str("0"),
            select_cal_path: String::new(),
            console: vec![Print::Message(String::from_str("waiting for serial connection..,"))],
            gui_conf,
            history: Vec::new(),
            index: 0,
            eol: String::from_str("\\r\\n"),
            show_sent_cmds: true,
            show_timestamps: true,
            save_raw: false,
            do_not_show_clear_warning: false,
        }
    }

    /// The line of the traffic view for `packet`, whose time stamp reads
    /// `time_text` (see `traffic_line`).
    pub fn console_text(&self, packet: &Packet, time_text: &str) -> (r: Option<String>)
        ensures
            r matches Some(s) ==> traffic_line(
                self.show_sent_cmds,
                self.show_timestamps,
                packet.direction,
                packet.payload@,
                time_text@,
            ) == Some(s@),
            r is None ==> traffic_line(
                self.show_sent_cmds,
                self.show_timestamps,
                packet.direction,
                packet.payload@,
                time_text@,
            ) is None,
    {
        let receive = match packet.direction {
            SerialDirection::Receive => true,
            SerialDirection::Send => false,
        };
        if self.show_sent_cmds && self.show_timestamps {
            let mut s = String::from_str("[");
            s.append(packet.direction.name());
            s.append("] t + ");
            s.append(time_text);
            s.append("s: ");
            s.append(packet.payload.as_str());
            s.append("\n");
            Some(s)
        } else if self.show_sent_cmds {
            let mut s = String::from_str("[");
            s.append(packet.direction.name());
            s.append("]: ");
            s.append(packet.payload.as_str());
            s.append("\n");
            Some(s)
        } else if receive && self.show_timestamps {
            let mut s = String::from_str("t + ");
            s.append(time_text);
            s.append("s: ");
            s.append(packet.payload.as_str());
            s.append("\n");
            Some(s)
        } else if receive {
            let mut s = packet.payload.clone();
            s.append("\n");
            Some(s)
        } else {
            None
        }
    }

    /// The traffic view of the packets `start..end`, whose time stamps read
    /// `time_texts`, one after the other.
    pub fn traffic_text(
        &self,
        packets: &Vec<Packet>,
        start: usize,
        end: usize,
        time_texts: &Vec<String>,
    ) -> (r: String)
        requires
            start <= end <= packets@.len(),
            time_texts@.len() == end - start,
        ensures
            r@ == traffic_upto(
                self.show_sent_cmds,
                self.show_timestamps,
                packets@.subrange(start as int, end as int),
                texts(time_texts@),
                (end - start) as nat,
            ),
    {
        let ghost ps = packets@.subrange(start as int, end as int);
        let ghost ts = texts(time_texts@);
        let mut res = String::new();
        let mut i: usize = start;
        while i < end
            invariant
                start <= i <= end,
                end <= packets@.len(),
                time_texts@.len() == end - start,
                ps == packets@.subrange(start as int, end as int),
                ts == texts(time_texts@),
                res@ == traffic_upto(
                    self.show_sent_cmds,
                    self.show_timestamps,
                    ps,
                    ts,
                    (i - start) as nat,
                ),
            decreases end - i,
        {
            let k = i - start;
            assert(ps[k as int] == packets@[i as int]);
            assert(ts[k as int] == time_texts@[k as int]@);
            let ghost before = res@;
            match self.console_text(&packets[i], time_texts[k].as_str()) {
                Some(line) => {
                    res.append(line.as_str());
                },
                None => {},
            }
            assert(res@ =~= traffic_upto(
                self.show_sent_cmds,
                self.show_timestamps,
                ps,
                ts,
                (k + 1) as nat,
            ));
            i = i + 1;
        }
        res
    }

    /// The samples that are plotted of each series: for the series whose
    /// lengths are `dataset_lens`, recorded at `time_len` instants, the
    /// positions `start..end` of the plotted samples.  Plotting starts at the
    /// latest `plotting_range` samples of the first series; a series whose
    /// length differs from the number of instants is not plotted.
    pub fn plot_sample_ranges(&self, time_len: usize, dataset_lens: &Vec<usize>) -> (r: Vec<
        (usize, usize),
    >)
        requires
            dataset_lens@.len() > 0,
            window_start(dataset_lens@[0], self.plotting_range) <= time_len,
        ensures
            r@.len() == dataset_lens@.len(),
            forall|g: int|
                0 <= g < r@.len() ==> #[trigger] r@[g] == (
                    window_start(dataset_lens@[0], self.plotting_range) as usize,
                    if dataset_lens@[g] == time_len {
                        time_len
                    } else {
                        window_start(dataset_lens@[0], self.plotting_range) as usize
                    },
                ),
    {
        let window = dataset_lens[0].saturating_sub(self.plotting_range);
        let mut r: Vec<(usize, usize)> = Vec::new();
        let mut g: usize = 0;
        while g < dataset_lens.len()
            invariant
                g <= dataset_lens@.len(),
                window == window_start(dataset_lens@[0], self.plotting_range),
                r@.len() == g,
                forall|h: int|
                    0 <= h < g ==> #[trigger] r@[h] == (
                        window,
                        if dataset_lens@[h] == time_len {
                            time_len
                        } else {
                            window
                        },
                    ),
            decreases dataset_lens.len() - g,
        {
            let end = if dataset_lens[g] == time_len {
                time_len
            } else {
                window
            };
            r.push((window, end));
            g = g + 1;
        }
        r
    }
}

/// Row `n` of the traffic view is the line of packet `n` with time stamp
/// `times[n]`: with direction and time where both are shown, with the
/// direction where only sent commands are shown, with the time for a received
/// packet where only time stamps are shown, the bare payload for a received
/// packet where neither is shown, and nothing for a sent packet where sent
/// commands are hidden.
pub proof fn lemma_traffic_row(
    show_sent_cmds: bool,
    show_timestamps: bool,
    ps: Seq<Packet>,
    times: Seq<Seq<char>>,
    n: nat,
)
    requires
        n < ps.len(),
        n < times.len(),
    ensures
        ({
            let dir = ps[n as int].direction;
            let payload = ps[n as int].payload@;
            let time = times[n as int];
            let name = if dir == SerialDirection::Send {
                "SEND"@
            } else {
                "RECV"@
            };
            let row = if show_sent_cmds && show_timestamps {
                "["@ + name + "] t + "@ + time + "s: "@ + payload + "\n"@
            } else if show_sent_cmds {
                "["@ + name + "]: "@ + payload + "\n"@
            } else if dir == SerialDirection::Receive && show_timestamps {
                "t + "@ + time + "s: "@ + payload + "\n"@
            } else if dir == SerialDirection::Receive {
                payload + "\n"@
            } else {
                Seq::<char>::empty()
            };
            traffic_upto(show_sent_cmds, show_timestamps, ps, times, n + 1) == traffic_upto(
                show_sent_cmds,
                show_timestamps,
                ps,
                times,
                n,
            ) + row
        }),
{
    assert((n + 1 - 1) as nat == n);
}

} // verus!
