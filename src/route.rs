use vstd::prelude::*;
use crate::notify::{default_target, NotifyTarget};
use crate::text::{contains, str_contains};

verus! {

/// The bus a subscription is opened on.
#[derive(Debug, Clone, Copy, PartialEq, Eq, Structural)]
pub enum BusDomain {
    System,
    Session,
}

/// The payload shape a subscribed signal is declared with.
#[derive(Debug, Clone, Copy, PartialEq, Eq, Structural)]
pub enum SignalShape {
    /// A unit name and an object path (systemd's `UnitNew` and `UnitRemoved`).
    UnitLifecycle,
    /// An interface name, the changed properties and the invalidated ones.
    PropertiesChanged,
}

/// One signal to listen for: where it comes from and what its payload looks like.
#[derive(Debug, Clone, PartialEq, Eq)]
pub struct Subscription {
    pub domain: BusDomain,
    pub service: String,
    pub path: String,
    pub interface: String,
    pub signal: String,
    pub shape: SignalShape,
}

/// Which events of a subscription lead to its action.
#[derive(Debug, Clone, PartialEq, Eq)]
pub enum Filter {
    /// Every event.
    Everything,
    /// Events whose text holds each of these strings.
    AllOf(Vec<String>),
}

/// What to do for an event that passes the filter.
#[derive(Debug, Clone, PartialEq, Eq)]
pub enum Action {
    /// Write the route's note and signal the target process.
    Notify(NotifyTarget),
    /// Only write the route's note.
    Log,
}

/// One row of the dispatch table.
#[derive(Debug, Clone, PartialEq, Eq)]
pub struct Route {
    pub subscription: Subscription,
    pub filter: Filter,
    pub action: Action,
    pub note: String,
}

/// Whether `filter` lets an event with text `text` through.
pub open spec fn filter_admits(filter: Filter, text: Seq<char>) -> bool {
    match filter {
        Filter::Everything => true,
        Filter::AllOf(needles) => forall|i: int|
            0 <= i < needles@.len() ==> contains(text, #[trigger] needles@[i]@),
    }
}

/// The texts a filter of kind `AllOf` looks for.
pub open spec fn needle_views(needles: Seq<String>) -> Seq<Seq<char>> {
    needles.map_values(|s: String| s@)
}

/// The unit name of a bluetooth device as systemd's device units spell it.
pub open spec fn is_bluetooth_device(name: Seq<char>) -> bool {
    contains(name, "bluetooth"@) && contains(name, "sys-subsystem"@)
}

impl Filter {
    /// Evaluates the filter on `text`; it reads nothing but its arguments.
    pub fn admits(&self, text: &str) -> (r: bool)
        ensures
            r == filter_admits(*self, text@),
    {
        match self {
            Filter::Everything => true,
            Filter::AllOf(needles) => {
                let mut i: usize = 0;
                while i < needles.len()
                    invariant
                        *self is AllOf,
                        self->AllOf_0@ == needles@,
                        i <= needles@.len(),
                        forall|j: int| 0 <= j < i ==> contains(text@, #[trigger] needles@[j]@),
                    decreases needles@.len() - i,
                {
                    if !str_contains(text, needles[i].as_str()) {
                        assert(!contains(text@, needles@[i as int]@));
                        return false;
                    }
                    i = i + 1;
                }
                true
            },
        }
    }
}

/// The filter for bluetooth device units.
pub fn device_filter() -> (f: Filter)
    ensures
        forall|name: Seq<char>| #[trigger] filter_admits(f, name) == is_bluetooth_device(name),
{
    let mut needles: Vec<String> = Vec::new();
    needles.push(String::from_str("bluetooth"));
    needles.push(String::from_str("sys-subsystem"));
    assert(needles@[0]@ == "bluetooth"@);
    assert(needles@[1]@ == "sys-subsystem"@);
    let ghost views = needles@;
    let f = Filter::AllOf(needles);
    assert forall|name: Seq<char>| #[trigger] filter_admits(f, name) == is_bluetooth_device(name) by {
        assert(f->AllOf_0@ == views);
        if is_bluetooth_device(name) {
            assert forall|i: int| 0 <= i < views.len() implies contains(name, #[trigger] views[i]@) by {
                if i == 0 {} else {}
            }
        }
        if filter_admits(f, name) {
            assert(contains(name, views[0]@));
            assert(contains(name, views[1]@));
        }
    }
    f
}

/// Whether a unit name is that of a bluetooth device.
pub fn unit_matches(name: &str) -> (r: bool)
    ensures
        r == is_bluetooth_device(name@),
{
    device_filter().admits(name)
}

/// `s` listens for `signal` of `interface` at `path` of `service` on `domain`.
pub open spec fn subscription_is(
    s: Subscription,
    domain: BusDomain,
    service: Seq<char>,
    path: Seq<char>,
    interface: Seq<char>,
    signal: Seq<char>,
    shape: SignalShape,
) -> bool {
    &&& s.domain == domain
    &&& s.service@ == service
    &&& s.path@ == path
    &&& s.interface@ == interface
    &&& s.signal@ == signal
    &&& s.shape == shape
}

/// A route for systemd's unit `signal` that signals the status bar for
/// bluetooth devices, writing `note`.
pub open spec fn is_device_route(r: Route, signal: Seq<char>, note: Seq<char>) -> bool {
    &&& subscription_is(
        r.subscription,
        BusDomain::System,
        "org.freedesktop.systemd1"@,
        "/org/freedesktop/systemd1"@,
        "org.freedesktop.systemd1.Manager"@,
        signal,
        SignalShape::UnitLifecycle,
    )
    &&& forall|name: Seq<char>| #[trigger] filter_admits(r.filter, name) == is_bluetooth_device(name)
    &&& r.action is Notify
    &&& r.action->Notify_0.executable@ == "waybar"@
    &&& r.action->Notify_0.signal_offset == 13
    &&& r.note@ == note
}

/// The route that writes a note for every property change of the notification daemon.
pub open spec fn is_notification_daemon_route(r: Route) -> bool {
    &&& subscription_is(
        r.subscription,
        BusDomain::Session,
        "org.freedesktop.Notifications"@,
        "/fr/emersion/Mako"@,
        "org.freedesktop.DBus.Properties"@,
        "PropertiesChanged"@,
        SignalShape::PropertiesChanged,
    )
    &&& r.filter is Everything
    &&& r.action is Log
    &&& r.note@ == "we got a mako event!!!!!"@
}

fn subscription(
    domain: BusDomain,
    service: &str,
    path: &str,
    interface: &str,
    signal: &str,
    shape: SignalShape,
) -> (s: Subscription)
    ensures
        subscription_is(s, domain, service@, path@, interface@, signal@, shape),
{
    Subscription {
        domain,
        service: String::from_str(service),
        path: String::from_str(path),
        interface: String::from_str(interface),
        signal: String::from_str(signal),
        shape,
    }
}

fn device_route(signal: &str, note: &str) -> (r: Route)
    ensures
        is_device_route(r, signal@, note@),
{
    Route {
        subscription: subscription(
            BusDomain::System,
            "org.freedesktop.systemd1",
            "/org/freedesktop/systemd1",
            "org.freedesktop.systemd1.Manager",
            signal,
            SignalShape::UnitLifecycle,
        ),
        filter: device_filter(),
        action: Action::Notify(default_target()),
        note: String::from_str(note),
    }
}

/// The dispatch table: bluetooth devices removed, bluetooth devices added (both
/// signal the status bar), and property changes of the notification daemon
/// (only noted).
pub fn default_routes() -> (r: Vec<Route>)
    ensures
        r@.len() == 3,
        is_device_route(r@[0], "UnitRemoved"@, "Bluetooth Device removed"@),
        is_device_route(r@[1], "UnitNew"@, "Bluetooth Device added"@),
        is_notification_daemon_route(r@[2]),
{
    let mut r: Vec<Route> = Vec::new();
    r.push(device_route("UnitRemoved", "Bluetooth Device removed"));
    r.push(device_route("UnitNew", "Bluetooth Device added"));
    r.push(
        Route {
            subscription: subscription(
                BusDomain::Session,
                "org.freedesktop.Notifications",
                "/fr/emersion/Mako",
                "org.freedesktop.DBus.Properties",
                "PropertiesChanged",
                SignalShape::PropertiesChanged,
            ),
            filter: Filter::Everything,
            action: Action::Log,
            note: String::from_str("we got a mako event!!!!!"),
        },
    );
    r
}

/// An `AllOf` filter is passed whenever one that looks for more texts is.
proof fn lemma_fewer_needles(text: Seq<char>, more: Seq<String>, fewer: Seq<String>)
    requires
        needle_views(fewer).to_set().subset_of(needle_views(more).to_set()),
        forall|i: int| 0 <= i < more.len() ==> contains(text, #[trigger] more[i]@),
    ensures
        forall|j: int| 0 <= j < fewer.len() ==> contains(text, #[trigger] fewer[j]@),
{
    assert forall|j: int| 0 <= j < fewer.len() implies contains(text, #[trigger] fewer[j]@) by {
        assert(needle_views(fewer)[j] == fewer[j]@);
        assert(needle_views(fewer).to_set().contains(fewer[j]@));
        assert(needle_views(more).contains(fewer[j]@));
        let i = choose|i: int| 0 <= i < needle_views(more).len() && needle_views(more)[i] == fewer[j]@;
        assert(more[i]@ == fewer[j]@);
    }
}

/// The filter's verdict does not depend on the order in which it looks for its
/// texts, nor on repeats among them: two `AllOf` filters that look for the same
/// set of texts agree on every text.
pub proof fn lemma_needle_order_irrelevant(text: Seq<char>, f: Filter, g: Filter)
    requires
        f is AllOf,
        g is AllOf,
        needle_views(f->AllOf_0@).to_set() == needle_views(g->AllOf_0@).to_set(),
    ensures
        filter_admits(f, text) == filter_admits(g, text),
{
    let a = f->AllOf_0@;
    let b = g->AllOf_0@;
    if filter_admits(f, text) {
        lemma_fewer_needles(text, a, b);
    }
    if filter_admits(g, text) {
        lemma_fewer_needles(text, b, a);
    }
}

} // verus!
