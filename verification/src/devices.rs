//! The archive of serial devices that were used before, with the plot count
//! and the dataset labels of each, and the list of ports the user can pick.
use vstd::prelude::*;

use crate::text::{contains_text, lemma_without_absent, text_contains, text_without, without_text};

verus! {

/// A serial device: its port name and its baud rate.
#[derive(Clone, Debug, PartialEq)]
pub struct Device {
    pub name: String,
    pub baud_rate: u32,
}

/// What a device is, as a value.
pub struct DeviceView {
    pub name: Seq<char>,
    pub baud_rate: u32,
}

impl View for Device {
    type V = DeviceView;

    open spec fn view(&self) -> DeviceView {
        DeviceView { name: self.name@, baud_rate: self.baud_rate }
    }
}

/// The baud rate of a device that nothing was set for.
pub const DEFAULT_BAUD_RATE: u32 = 9600;

impl Default for Device {
    fn default() -> (d: Self)
        ensures
            d.name@ == Seq::<char>::empty(),
            d.baud_rate == DEFAULT_BAUD_RATE,
    {
        Device { name: String::new(), baud_rate: DEFAULT_BAUD_RATE }
    }
}

/// The archive of devices.  `devices`, `labels` and `number_of_plots` run in
/// parallel: entry `i` of each belongs to device `i`.
#[derive(Clone, Debug, PartialEq)]
pub struct SerialDevices {
    pub devices: Vec<Device>,
    pub labels: Vec<Vec<String>>,
    pub number_of_plots: Vec<usize>,
}

/// The archive as a value.
pub struct RegistryView {
    pub devices: Seq<DeviceView>,
    pub labels: Seq<Seq<Seq<char>>>,
    pub number_of_plots: Seq<usize>,
}

/// The views of a list of strings.
pub open spec fn texts(v: Seq<String>) -> Seq<Seq<char>> {
    v.map_values(|s: String| s@)
}

impl View for SerialDevices {
    type V = RegistryView;

    open spec fn view(&self) -> RegistryView {
        RegistryView {
            devices: self.devices@.map_values(|d: Device| d@),
            labels: self.labels@.map_values(|l: Vec<String>| texts(l@)),
            number_of_plots: self.number_of_plots@,
        }
    }
}

/// The label that a new dataset column gets.
pub open spec fn first_column_label() -> Seq<char> {
    "Column 0"@
}

impl RegistryView {
    /// The three lists have one entry per device.
    pub open spec fn wf(self) -> bool {
        &&& self.labels.len() == self.devices.len()
        &&& self.number_of_plots.len() == self.devices.len()
    }

    /// The archive after a device named `name` was added at its end, with one
    /// plot and a single column label.
    pub open spec fn with_device(self, name: Seq<char>) -> RegistryView {
        RegistryView {
            devices: self.devices.push(DeviceView { name, baud_rate: DEFAULT_BAUD_RATE }),
            labels: self.labels.push(seq![first_column_label()]),
            number_of_plots: self.number_of_plots.push(1),
        }
    }

    /// The archive that holds one unnamed device.
    pub open spec fn initial() -> RegistryView {
        RegistryView::empty().with_device(Seq::empty())
    }

    /// The archive without any device.
    pub open spec fn empty() -> RegistryView {
        RegistryView { devices: Seq::empty(), labels: Seq::empty(), number_of_plots: Seq::empty() }
    }
}

/// The position of the last device in `devs` that is named `name`.
pub open spec fn last_named(devs: Seq<DeviceView>, name: Seq<char>) -> Option<int>
    decreases devs.len(),
{
    if devs.len() == 0 {
        None
    } else if devs.last().name == name {
        Some(devs.len() - 1)
    } else {
        last_named(devs.drop_last(), name)
    }
}

/// `last_named` finds a device of that name, and the last one.
pub proof fn lemma_last_named(devs: Seq<DeviceView>, name: Seq<char>)
    ensures
        match last_named(devs, name) {
            Some(i) => 0 <= i < devs.len() && devs[i].name == name && forall|j: int|
                i < j < devs.len() ==> devs[j].name != name,
            None => forall|j: int| 0 <= j < devs.len() ==> devs[j].name != name,
        },
    decreases devs.len(),
{
    if devs.len() > 0 {
        let rest = devs.drop_last();
        lemma_last_named(rest, name);
        assert forall|j: int| 0 <= j < rest.len() implies rest[j] == devs[j] by {}
    }
}

impl Default for SerialDevices {
    /// The archive of a first start: one unnamed device.
    fn default() -> (r: Self)
        ensures
            r@ == RegistryView::initial(),
    {
        let r = SerialDevices {
            devices: vec![Device::default()],
            labels: vec![vec![String::from_str("Column 0")]],
            number_of_plots: vec![1],
        };
        assert(r@.devices =~= RegistryView::initial().devices);
        assert(r@.labels[0] =~= seq![first_column_label()]);
        assert(r@.labels =~= RegistryView::initial().labels);
        assert(r@.number_of_plots =~= RegistryView::initial().number_of_plots);
        r
    }
}

impl SerialDevices {
    /// The position of the last archived device named `name`, if any.
    pub fn find(&self, name: &String) -> (r: Option<usize>)
        ensures
            r matches Some(i) ==> last_named(self@.devices, name@) == Some(i as int),
            r is None ==> last_named(self@.devices, name@) is None,
    {
        let mut i: usize = self.devices.len();
        assert(self@.devices.take(i as int) =~= self@.devices);
        while i > 0
            invariant
                i <= self.devices@.len(),
                last_named(self@.devices, name@) == last_named(
                    self@.devices.take(i as int),
                    name@,
                ),
            decreases i,
        {
            let ghost prefix = self@.devices.take(i as int);
            assert(prefix.last() == self@.devices[i - 1]);
            if self.devices[i - 1].name == *name {
                return Some(i - 1);
            }
            assert(prefix.drop_last() =~= self@.devices.take(i - 1));
            i = i - 1;
        }
        assert(self@.devices.take(0) =~= Seq::<DeviceView>::empty());
        None
    }

    /// Adds a device named `name` at the end of the archive, with one plot and
    /// a single column label, and returns its position.
    pub fn register(&mut self, name: String) -> (idx: usize)
        requires
            old(self)@.wf(),
        ensures
            final(self)@ == old(self)@.with_device(name@),
            final(self)@.wf(),
            idx == old(self)@.devices.len(),
    {
        let ghost before = self@;
        let mut device = Device::default();
        device.name = name;
        self.devices.push(device);
        self.number_of_plots.push(1);
        let first = vec![String::from_str("Column 0")];
        assert(texts(first@) =~= seq![first_column_label()]);
        self.labels.push(first);
        assert(self@.labels.last() == seq![first_column_label()]);
        assert(self@.devices =~= before.with_device(name@).devices);
        assert(self@.labels =~= before.with_device(name@).labels);
        assert(self@.number_of_plots =~= before.with_device(name@).number_of_plots);
        self.devices.len() - 1
    }
}

/// A port the user can pick: the port's name and the shorter text shown for it.
#[derive(Clone, Debug, PartialEq)]
pub struct DeviceChoice {
    pub value: String,
    pub label: String,
}

/// The prefix that ports have on UNIX-like systems; it is left out where a port
/// is shown.
pub open spec fn tty_prefix() -> Seq<char> {
    "/dev/tty."@
}

/// The call-out ports of macOS, which are not offered.
pub open spec fn callout_prefix() -> Seq<char> {
    "/dev/cu."@
}

/// The text shown for a port name.
pub open spec fn port_label(name: Seq<char>) -> Seq<char> {
    without_text(name, tty_prefix())
}

/// The ports offered for the names `ports`: each name that holds no call-out
/// prefix, in order, with its shown text.
pub open spec fn port_choices(ports: Seq<Seq<char>>) -> Seq<(Seq<char>, Seq<char>)>
    decreases ports.len(),
{
    if ports.len() == 0 {
        Seq::empty()
    } else {
        let rest = port_choices(ports.drop_last());
        if contains_text(ports.last(), callout_prefix()) {
            rest
        } else {
            rest.push((ports.last(), port_label(ports.last())))
        }
    }
}

/// The choices as values.
pub open spec fn choice_views(cs: Seq<DeviceChoice>) -> Seq<(Seq<char>, Seq<char>)> {
    cs.map_values(|c: DeviceChoice| (c.value@, c.label@))
}

/// The text shown for a port name (see `port_label`).
pub fn device_label(name: &str) -> (r: String)
    ensures
        r@ == port_label(name@),
{
    text_without(name, "/dev/tty.")
}

/// The ports offered in the device list (see `port_choices`).
pub fn device_choices(ports: &Vec<String>) -> (r: Vec<DeviceChoice>)
    ensures
        choice_views(r@) == port_choices(texts(ports@)),
        forall|k: int|
            0 <= k < ports@.len() && !contains_text(#[trigger] ports@[k]@, callout_prefix())
                ==> exists|j: int| 0 <= j < r@.len() && r@[j].value@ == ports@[k]@,
{
    let mut res: Vec<DeviceChoice> = Vec::new();
    let mut i: usize = 0;
    assert(texts(ports@).take(0) =~= Seq::<Seq<char>>::empty());
    assert(choice_views(res@) =~= Seq::<(Seq<char>, Seq<char>)>::empty());
    while i < ports.len()
        invariant
            i <= ports@.len(),
            choice_views(res@) == port_choices(texts(ports@).take(i as int)),
        decreases ports.len() - i,
    {
        let ghost names = texts(ports@);
        assert(names.take(i + 1).drop_last() =~= names.take(i as int));
        assert(names.take(i + 1).last() == ports@[i as int]@);
        let port = &ports[i];
        if !text_contains(port.as_str(), "/dev/cu.") {
            let label = device_label(port.as_str());
            let ghost before = res@;
            res.push(DeviceChoice { value: port.clone(), label });
            assert(choice_views(res@) =~= choice_views(before).push(
                (ports@[i as int]@, port_label(ports@[i as int]@)),
            ));
        }
        i = i + 1;
    }
    assert(texts(ports@).take(ports@.len() as int) =~= texts(ports@));
    proof {
        lemma_choices_complete(texts(ports@));
        assert forall|k: int|
            0 <= k < ports@.len() && !contains_text(#[trigger] ports@[k]@, callout_prefix())
                implies exists|j: int| 0 <= j < res@.len() && res@[j].value@ == ports@[k]@ by {
            assert(texts(ports@)[k] == ports@[k]@);
            let cs = port_choices(texts(ports@));
            assert(cs.contains((ports@[k]@, port_label(ports@[k]@))));
            let j = choose|j: int| 0 <= j < cs.len() && cs[j] == (ports@[k]@, port_label(ports@[k]@));
            assert(choice_views(res@)[j] == (res@[j].value@, res@[j].label@));
        }
    }
    res
}

/// Whether `name` is among `ports`.
pub fn port_listed(ports: &Vec<String>, name: &String) -> (r: bool)
    ensures
        r == texts(ports@).contains(name@),
{
    let mut i: usize = 0;
    while i < ports.len()
        invariant
            i <= ports@.len(),
            forall|k: int| 0 <= k < i ==> ports@[k]@ != name@,
        decreases ports.len() - i,
    {
        if ports[i] == *name {
            assert(texts(ports@)[i as int] == name@);
            return true;
        }
        i = i + 1;
    }
    assert forall|k: int| 0 <= k < texts(ports@).len() implies texts(ports@)[k] != name@ by {
        assert(texts(ports@)[k] == ports@[k]@);
    }
    false
}

/// A name that holds no `/dev/tty.` is shown as it is.
pub proof fn lemma_label_of_plain_name(name: Seq<char>)
    requires
        !contains_text(name, tty_prefix()),
    ensures
        port_label(name) == name,
{
    lemma_without_absent(name, tty_prefix());
}

/// Every offered port is one of the listed ports and holds no `/dev/cu.`.
pub proof fn lemma_choices_are_listed_tty_ports(ports: Seq<Seq<char>>)
    ensures
        forall|k: int|
            0 <= k < port_choices(ports).len() ==> {
                let c = #[trigger] port_choices(ports)[k];
                &&& ports.contains(c.0)
                &&& !contains_text(c.0, callout_prefix())
                &&& c.1 == port_label(c.0)
            },
    decreases ports.len(),
{
    if ports.len() > 0 {
        let rest = ports.drop_last();
        lemma_choices_are_listed_tty_ports(rest);
        let before = port_choices(rest);
        assert forall|k: int| 0 <= k < before.len() implies ports.contains(#[trigger] before[k].0) by {
            let j = choose|j: int| 0 <= j < rest.len() && rest[j] == before[k].0;
            assert(ports[j] == rest[j]);
        }
        assert(ports[ports.len() - 1] == ports.last());
    }
}

/// Whether a port is offered: it holds no `/dev/cu.`.
pub open spec fn offered() -> spec_fn(Seq<char>) -> bool {
    |p: Seq<char>| !contains_text(p, callout_prefix())
}

/// A port with the text shown for it.
pub open spec fn with_label() -> spec_fn(Seq<char>) -> (Seq<char>, Seq<char>) {
    |p: Seq<char>| (p, port_label(p))
}

/// The offered ports are exactly the listed ports that hold no `/dev/cu.`,
/// each once, in the order of the list, each with its shown text.
pub proof fn lemma_choices_are_the_tty_ports(ports: Seq<Seq<char>>)
    ensures
        port_choices(ports) == ports.filter(offered()).map_values(with_label()),
    decreases ports.len(),
{
    reveal(Seq::filter);
    if ports.len() > 0 {
        let rest = ports.drop_last();
        lemma_choices_are_the_tty_ports(rest);
        let kept = rest.filter(offered());
        if offered()(ports.last()) {
            assert(kept.push(ports.last()).map_values(with_label()) =~= kept.map_values(
                with_label(),
            ).push(with_label()(ports.last())));
        }
    }
}

/// Every listed port that holds no `/dev/cu.` is offered, with its shown text.
pub proof fn lemma_choices_complete(ports: Seq<Seq<char>>)
    ensures
        forall|k: int|
            0 <= k < ports.len() && !contains_text(#[trigger] ports[k], callout_prefix())
                ==> port_choices(ports).contains((ports[k], port_label(ports[k]))),
    decreases ports.len(),
{
    if ports.len() > 0 {
        let rest = ports.drop_last();
        lemma_choices_complete(rest);
        let before = port_choices(rest);
        assert forall|k: int|
            0 <= k < ports.len() && !contains_text(#[trigger] ports[k], callout_prefix())
                implies port_choices(ports).contains((ports[k], port_label(ports[k]))) by {
            if k < ports.len() - 1 {
                assert(ports[k] == rest[k]);
                assert(before.contains((rest[k], port_label(rest[k]))));
                let j = choose|j: int| 0 <= j < before.len() && before[j] == (rest[k], port_label(rest[k]));
                if !contains_text(ports.last(), callout_prefix()) {
                    assert(port_choices(ports)[j] == before[j]);
                }
            } else {
                assert(ports[k] == ports.last());
                let after = port_choices(ports);
                assert(after[after.len() - 1] == (ports[k], port_label(ports[k])));
            }
        }
    }
}

} // verus!
