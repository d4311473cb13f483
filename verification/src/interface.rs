//! Named media interfaces: which address a leg binds, and which it advertises.
use crate::net::{AddressFamily, IpAddress};
use crate::text::{joined, owned};
use vstd::prelude::*;

verus! {

/// One address of an interface: where media is bound, and what peers are told.
#[derive(Clone, Copy, Debug, PartialEq, Eq, Structural)]
pub struct InterfaceAddress {
    pub bind: IpAddress,
    pub advertised: IpAddress,
}

impl InterfaceAddress {
    /// The family of the bound address.
    pub fn family(&self) -> (family: AddressFamily)
        ensures
            family == self.bind.family_spec(),
    {
        self.bind.family()
    }
}

/// A named interface, with at most one address of each family.
#[derive(Clone, Debug, PartialEq, Eq)]
pub struct Interface {
    pub name: String,
    pub addresses: Vec<InterfaceAddress>,
}

/// The content of an [`Interface`].
pub struct InterfaceView {
    pub name: Seq<char>,
    pub addresses: Seq<InterfaceAddress>,
}

impl View for Interface {
    type V = InterfaceView;

    open spec fn view(&self) -> InterfaceView {
        InterfaceView { name: self.name@, addresses: self.addresses@ }
    }
}

impl InterfaceView {
    /// Whether the interface has an address of a family.
    pub open spec fn serves(self, family: AddressFamily) -> bool {
        exists|i: int| 0 <= i < self.addresses.len() && (#[trigger] self.addresses[i]).bind.family_spec() == family
    }

    /// Whether an address is the first of a family.
    pub open spec fn first_of(self, family: AddressFamily, i: int) -> bool {
        &&& 0 <= i < self.addresses.len()
        &&& self.addresses[i].bind.family_spec() == family
        &&& forall|j: int| 0 <= j < i ==> (#[trigger] self.addresses[j]).bind.family_spec() != family
    }

    /// At least one address, and at most one of each family.
    pub open spec fn wf(self) -> bool {
        &&& self.addresses.len() > 0
        &&& forall|i: int, j: int|
            0 <= i < j < self.addresses.len() ==> (#[trigger] self.addresses[i]).bind.family_spec() != (
            #[trigger] self.addresses[j]).bind.family_spec()
    }
}

impl Interface {
    /// The address of exactly this family. A family the interface does not serve is never substituted.
    pub fn exact_address_for(&self, family: AddressFamily) -> (address: Option<InterfaceAddress>)
        ensures
            address is Some == self@.serves(family),
            address matches Some(found) ==> exists|i: int| #[trigger]
                self@.first_of(family, i) && self@.addresses[i] == found,
    {
        let mut i: usize = 0;
        while i < self.addresses.len()
            invariant
                i <= self.addresses@.len(),
                forall|j: int| 0 <= j < i ==> (#[trigger] self.addresses@[j]).bind.family_spec() != family,
            decreases self.addresses@.len() - i,
        {
            let address: InterfaceAddress = self.addresses[i];
            if address.family() == family {
                proof {
                    assert(self@.first_of(family, i as int));
                }
                return Some(address);
            }
            i = i + 1;
        }
        None
    }
}

/// One line of configuration: a name may repeat, once per family.
#[derive(Clone, Debug, PartialEq, Eq)]
pub struct InterfaceEntry {
    pub name: String,
    pub bind: IpAddress,
    /// What peers are told. The bound address without one.
    pub advertised: Option<IpAddress>,
}

/// The content of an [`InterfaceEntry`].
pub struct InterfaceEntryView {
    pub name: Seq<char>,
    pub bind: IpAddress,
    pub advertised: Option<IpAddress>,
}

impl View for InterfaceEntry {
    type V = InterfaceEntryView;

    open spec fn view(&self) -> InterfaceEntryView {
        InterfaceEntryView { name: self.name@, bind: self.bind, advertised: self.advertised }
    }
}

impl InterfaceEntryView {
    /// The address the line stands for.
    pub open spec fn address(self) -> InterfaceAddress {
        InterfaceAddress {
            bind: self.bind,
            advertised: match self.advertised {
                Some(ip) => ip,
                None => self.bind,
            },
        }
    }
}

impl InterfaceEntry {
    /// A line of configuration.
    pub fn new(name: String, bind: IpAddress, advertised: Option<IpAddress>) -> (entry: Self)
        ensures
            entry@ == (InterfaceEntryView { name: name@, bind, advertised }),
    {
        InterfaceEntry { name, bind, advertised }
    }

    /// The address the line stands for.
    fn address(&self) -> (address: InterfaceAddress)
        ensures
            address == self@.address(),
    {
        InterfaceAddress {
            bind: self.bind,
            advertised: match self.advertised {
                Some(ip) => ip,
                None => self.bind,
            },
        }
    }
}

/// The first interface with a name, or the number of interfaces where there is none.
pub open spec fn index_of(interfaces: Seq<InterfaceView>, name: Seq<char>) -> int
    decreases interfaces.len(),
{
    if interfaces.len() == 0 {
        0
    } else if interfaces[0].name == name {
        0
    } else {
        1 + index_of(interfaces.skip(1), name)
    }
}

/// Whether an interface has a name.
pub open spec fn named(interfaces: Seq<InterfaceView>, name: Seq<char>) -> bool {
    index_of(interfaces, name) < interfaces.len()
}

/// Whether a line clashes with the interfaces before it: its name has an address of its family.
pub open spec fn clashes(interfaces: Seq<InterfaceView>, entry: InterfaceEntryView) -> bool {
    named(interfaces, entry.name) && interfaces[index_of(interfaces, entry.name)].serves(entry.bind.family_spec())
}

/// The interfaces with one more line: a known name gets one more address.
pub open spec fn merged(interfaces: Seq<InterfaceView>, entry: InterfaceEntryView) -> Seq<InterfaceView> {
    let i = index_of(interfaces, entry.name);
    if i < interfaces.len() {
        interfaces.update(
            i,
            InterfaceView { addresses: interfaces[i].addresses.push(entry.address()), ..interfaces[i] },
        )
    } else {
        interfaces.push(InterfaceView { name: entry.name, addresses: seq![entry.address()] })
    }
}

/// The interfaces of a list of lines.
pub open spec fn all_merged(entries: Seq<InterfaceEntryView>) -> Seq<InterfaceView>
    decreases entries.len(),
{
    if entries.len() == 0 {
        Seq::empty()
    } else {
        merged(all_merged(entries.drop_last()), entries.last())
    }
}

/// Whether the `k`-th line is the first that clashes.
pub open spec fn first_clash(entries: Seq<InterfaceEntryView>, k: int) -> bool {
    &&& 0 <= k < entries.len()
    &&& clashes(all_merged(entries.take(k)), entries[k])
    &&& forall|j: int| 0 <= j < k ==> !clashes(all_merged(entries.take(j)), #[trigger] entries[j])
}

/// The contents of a list of lines.
pub open spec fn entry_views(entries: Seq<InterfaceEntry>) -> Seq<InterfaceEntryView> {
    Seq::new(entries.len(), |i: int| entries[i]@)
}

/// The contents of a list of interfaces.
pub open spec fn interface_views(interfaces: Seq<Interface>) -> Seq<InterfaceView> {
    Seq::new(interfaces.len(), |i: int| interfaces[i]@)
}

/// The name of a family.
pub open spec fn family_label(family: AddressFamily) -> Seq<char> {
    match family {
        AddressFamily::V4 => "V4"@,
        AddressFamily::V6 => "V6"@,
    }
}

/// The message for an interface with two addresses of one family.
pub open spec fn clash_text(entry: InterfaceEntryView) -> Seq<char> {
    "interface `"@ + entry.name + "` has two "@ + family_label(entry.bind.family_spec()) + " addresses"@
}

/// The message for a default that names no interface.
pub open spec fn default_text(name: Seq<char>) -> Seq<char> {
    "default_interface `"@ + name + "` is not a configured interface"@
}

/// The interfaces of the engine, and the one that is used where a call names none.
#[derive(Clone, Debug)]
pub struct InterfaceTable {
    interfaces: Vec<Interface>,
    default_index: usize,
}

/// The content of an [`InterfaceTable`].
pub struct InterfaceTableView {
    pub interfaces: Seq<InterfaceView>,
    pub default_index: int,
}

impl View for InterfaceTable {
    type V = InterfaceTableView;

    closed spec fn view(&self) -> InterfaceTableView {
        InterfaceTableView { interfaces: interface_views(self.interfaces@), default_index: self.default_index as int }
    }
}

impl InterfaceTableView {
    /// The default names an interface, no name occurs twice, and every interface is valid.
    pub open spec fn wf(self) -> bool {
        &&& 0 <= self.default_index < self.interfaces.len()
        &&& valid_interfaces(self.interfaces)
    }

    /// The interface of a slot of a call's direction: the named one, or the default.
    pub open spec fn slot(self, name: Option<Seq<char>>) -> InterfaceView {
        match name {
            Some(wanted) if wanted.len() > 0 && named(self.interfaces, wanted) => self.interfaces[index_of(
                self.interfaces,
                wanted,
            )],
            _ => self.interfaces[self.default_index],
        }
    }
}

/// No name occurs twice, and every interface is valid.
pub open spec fn valid_interfaces(interfaces: Seq<InterfaceView>) -> bool {
    &&& forall|i: int, j: int|
        0 <= i < j < interfaces.len() ==> (#[trigger] interfaces[i]).name != (#[trigger] interfaces[j]).name
    &&& forall|i: int| 0 <= i < interfaces.len() ==> (#[trigger] interfaces[i]).wf()
}

/// The first interface with a name is where the search says.
proof fn lemma_index_of(interfaces: Seq<InterfaceView>, name: Seq<char>)
    ensures
        0 <= index_of(interfaces, name) <= interfaces.len(),
        named(interfaces, name) ==> interfaces[index_of(interfaces, name)].name == name,
        forall|j: int| 0 <= j < index_of(interfaces, name) ==> (#[trigger] interfaces[j]).name != name,
    decreases interfaces.len(),
{
    if interfaces.len() > 0 && interfaces[0].name != name {
        let rest = interfaces.skip(1);
        lemma_index_of(rest, name);
        assert forall|j: int| 0 <= j < index_of(interfaces, name) implies (#[trigger] interfaces[j]).name != name by {
            if j > 0 {
                assert(rest[j - 1] == interfaces[j]);
            }
        }
        if named(interfaces, name) {
            assert(rest[index_of(rest, name)] == interfaces[index_of(interfaces, name)]);
        }
    }
}

/// A search that found a place found the first.
proof fn lemma_index_is(interfaces: Seq<InterfaceView>, name: Seq<char>, i: int)
    requires
        0 <= i <= interfaces.len(),
        i < interfaces.len() ==> interfaces[i].name == name,
        forall|j: int| 0 <= j < i ==> (#[trigger] interfaces[j]).name != name,
    ensures
        index_of(interfaces, name) == i,
{
    lemma_index_of(interfaces, name);
    let found = index_of(interfaces, name);
    if found < i {
        assert(interfaces[found].name != name);
    } else if found > i {
        assert(interfaces[i].name != name);
    }
}

/// A line that does not clash keeps the interfaces valid.
pub proof fn law_merge_keeps_interfaces_valid(interfaces: Seq<InterfaceView>, entry: InterfaceEntryView)
    requires
        valid_interfaces(interfaces),
        !clashes(interfaces, entry),
    ensures
        valid_interfaces(merged(interfaces, entry)),
        merged(interfaces, entry).len() > 0,
{
    lemma_index_of(interfaces, entry.name);
    let i = index_of(interfaces, entry.name);
    let after = merged(interfaces, entry);
    assert forall|a: int, b: int| 0 <= a < b < after.len() implies (#[trigger] after[a]).name != (
    #[trigger] after[b]).name by {
        if i < interfaces.len() {
            assert(interfaces[a].name != interfaces[b].name);
        } else if b < interfaces.len() {
            assert(interfaces[a].name != interfaces[b].name);
        } else {
            assert(interfaces[a].name != entry.name);
        }
    }
    assert forall|a: int| 0 <= a < after.len() implies (#[trigger] after[a]).wf() by {
        if a < interfaces.len() {
            assert(interfaces[a].wf());
        }
        if a == i && i < interfaces.len() {
            let before = interfaces[i].addresses;
            assert forall|x: int, y: int| 0 <= x < y < after[a].addresses.len() implies (
            #[trigger] after[a].addresses[x]).bind.family_spec() != (#[trigger] after[a].addresses[y]).bind.family_spec() by {
                assert(after[a].addresses[x] == before[x]);
                if y < before.len() {
                    assert(after[a].addresses[y] == before[y]);
                }
            }
        }
    }
}

/// The table of a list of lines: their interfaces, and the named default or else the first.
pub open spec fn table_of(entries: Seq<InterfaceEntryView>, default_name: Option<Seq<char>>) -> InterfaceTableView {
    InterfaceTableView {
        interfaces: all_merged(entries),
        default_index: match default_name {
            Some(name) => index_of(all_merged(entries), name),
            None => 0,
        },
    }
}

/// The addresses of the lines with a name, in the order of the lines.
pub open spec fn addresses_of(entries: Seq<InterfaceEntryView>, name: Seq<char>) -> Seq<InterfaceAddress> {
    entries.filter(|line: InterfaceEntryView| line.name == name).map_values(
        |line: InterfaceEntryView| line.address(),
    )
}

/// Whether some line has a name.
pub open spec fn mentioned(entries: Seq<InterfaceEntryView>, name: Seq<char>) -> bool {
    exists|i: int| 0 <= i < entries.len() && (#[trigger] entries[i]).name == name
}

/// A table has an interface of a name exactly where a line has that name, and the interface holds the
/// addresses of exactly those lines, in their order.
pub proof fn law_interface_holds_its_lines(entries: Seq<InterfaceEntryView>, name: Seq<char>)
    ensures
        named(all_merged(entries), name) == mentioned(entries, name),
        named(all_merged(entries), name) ==> all_merged(entries)[index_of(all_merged(entries), name)] == (InterfaceView {
            name,
            addresses: addresses_of(entries, name),
        }),
    decreases entries.len(),
{
    reveal(Seq::filter);
    let all = all_merged(entries);
    if entries.len() > 0 {
        let prior = entries.drop_last();
        let last = entries.last();
        let before = all_merged(prior);
        let pred = |line: InterfaceEntryView| line.name == name;
        let address = |line: InterfaceEntryView| line.address();
        law_interface_holds_its_lines(prior, name);
        lemma_index_of(before, name);
        lemma_index_of(before, last.name);
        let i = index_of(before, last.name);
        let at = index_of(before, name);
        assert(mentioned(entries, name) == (mentioned(prior, name) || last.name == name)) by {
            if mentioned(prior, name) {
                let j = choose|j: int| 0 <= j < prior.len() && (#[trigger] prior[j]).name == name;
                assert(entries[j].name == name);
            }
            if last.name == name {
                assert(entries[entries.len() - 1].name == name);
            }
            if mentioned(entries, name) && last.name != name {
                let j = choose|j: int| 0 <= j < entries.len() && (#[trigger] entries[j]).name == name;
                assert(prior[j].name == name);
            }
        }
        if last.name == name {
            lemma_index_is(all, name, i);
            assert(addresses_of(entries, name) =~= addresses_of(prior, name).push(last.address()));
            if i == before.len() {
                assert(prior.filter(pred).len() == 0) by {
                    if prior.filter(pred).len() > 0 {
                        lemma_filtered_is_mentioned(prior, name);
                    }
                }
                assert(addresses_of(entries, name) =~= seq![last.address()]);
            }
        } else {
            if at < before.len() {
                assert(all[at] == before[at]);
                assert forall|j: int| 0 <= j < at implies (#[trigger] all[j]).name != name by {
                    assert(before[j].name != name);
                }
                lemma_index_is(all, name, at);
            } else {
                assert forall|j: int| 0 <= j < all.len() implies (#[trigger] all[j]).name != name by {
                    if j < before.len() {
                        assert(before[j].name != name);
                    }
                }
                lemma_index_is(all, name, all.len() as int);
            }
            assert(addresses_of(entries, name) =~= addresses_of(prior, name));
        }
    }
}

/// What a filter by name leaves is mentioned.
proof fn lemma_filtered_is_mentioned(entries: Seq<InterfaceEntryView>, name: Seq<char>)
    requires
        entries.filter(|line: InterfaceEntryView| line.name == name).len() > 0,
    ensures
        mentioned(entries, name),
    decreases entries.len(),
{
    reveal(Seq::filter);
    if entries.len() > 0 {
        if entries.last().name == name {
            assert(entries[entries.len() - 1].name == name);
        } else {
            lemma_filtered_is_mentioned(entries.drop_last(), name);
            let prior = entries.drop_last();
            let j = choose|j: int| 0 <= j < prior.len() && (#[trigger] prior[j]).name == name;
            assert(entries[j].name == name);
        }
    }
}

/// The first line's name is that of the first interface.
proof fn lemma_first_line_comes_first(entries: Seq<InterfaceEntryView>)
    requires
        entries.len() > 0,
    ensures
        all_merged(entries).len() > 0,
        all_merged(entries)[0].name == entries[0].name,
    decreases entries.len(),
{
    let prior = entries.drop_last();
    lemma_index_of(all_merged(prior), entries.last().name);
    if prior.len() > 0 {
        lemma_first_line_comes_first(prior);
        assert(prior[0] == entries[0]);
    } else {
        assert(all_merged(prior) =~= Seq::empty());
    }
}

/// The default of a table is the interface that is named as such, or else that of the first line.
pub proof fn law_default_is_the_named_or_the_first(entries: Seq<InterfaceEntryView>, default_name: Option<Seq<char>>)
    requires
        entries.len() > 0,
        default_name matches Some(name) ==> mentioned(entries, name),
    ensures
        ({
            let table = table_of(entries, default_name);
            &&& 0 <= table.default_index < table.interfaces.len()
            &&& table.interfaces[table.default_index].name == (match default_name {
                Some(name) => name,
                None => entries[0].name,
            })
            &&& table.slot(None) == table.interfaces[table.default_index]
        }),
{
    lemma_first_line_comes_first(entries);
    if let Some(name) = default_name {
        law_interface_holds_its_lines(entries, name);
        lemma_index_of(all_merged(entries), name);
    }
}

impl InterfaceTable {
    /// The table is valid.
    pub open spec fn wf(&self) -> bool {
        self@.wf()
    }

    /// Build a table out of configuration lines. `default_name` picks the default, or else it is the
    /// first. There must be a line, no two addresses of one family under one name, and the default
    /// must be among the names.
    pub fn from_entries(entries: Vec<InterfaceEntry>, default_name: Option<&str>) -> (table: Result<Self, String>)
        ensures
            ({
                let lines = entry_views(entries@);
                &&& lines.len() == 0 ==> (table matches Err(error) && error@
                    == "interface table needs at least one interface"@)
                &&& forall|k: int| #[trigger]
                    first_clash(lines, k) ==> (table matches Err(error) && error@ == clash_text(lines[k]))
                &&& lines.len() > 0 && (forall|k: int| !#[trigger] first_clash(lines, k)) ==> {
                    let interfaces = all_merged(lines);
                    match default_name {
                        Some(name) if !named(interfaces, name@) => table matches Err(error) && error@
                            == default_text(name@),
                        _ => {
                            &&& table is Ok
                            &&& table->Ok_0.wf()
                            &&& table->Ok_0@ == table_of(
                                lines,
                                match default_name {
                                    Some(name) => Some(name@),
                                    None => None,
                                },
                            )
                        },
                    }
                }
            }),
    {
        let ghost lines = entry_views(entries@);
        if entries.len() == 0 {
            return Err(owned("interface table needs at least one interface"));
        }
        let mut interfaces: Vec<Interface> = Vec::new();
        let mut i: usize = 0;
        proof {
            assert(lines.take(0) =~= Seq::empty());
            assert(interface_views(interfaces@) =~= all_merged(lines.take(0)));
        }
        while i < entries.len()
            invariant
                i <= entries@.len(),
                lines == entry_views(entries@),
                interface_views(interfaces@) == all_merged(lines.take(i as int)),
                valid_interfaces(all_merged(lines.take(i as int))),
                i > 0 ==> interfaces@.len() > 0,
                forall|j: int| 0 <= j < i ==> !clashes(all_merged(lines.take(j)), #[trigger] lines[j]),
            decreases entries@.len() - i,
        {
            let entry = &entries[i];
            let ghost before = all_merged(lines.take(i as int));
            let address: InterfaceAddress = entry.address();
            let place: usize = place_of(&interfaces, entry.name.as_str());
            proof {
                assert(lines[i as int] == entry@);
                assert(lines.take(i + 1).drop_last() =~= lines.take(i as int));
                assert(lines.take(i + 1).last() == entry@);
            }
            if place < interfaces.len() {
                if interfaces[place].exact_address_for(address.family()).is_some() {
                    proof {
                        assert(clashes(before, entry@));
                        assert(first_clash(lines, i as int));
                        assert forall|k: int| #[trigger] first_clash(lines, k) implies k == i by {
                            if k < i {
                                assert(!clashes(all_merged(lines.take(k)), lines[k]));
                            } else if k > i {
                                assert(!clashes(all_merged(lines.take(i as int)), lines[i as int]));
                            }
                        }
                    }
                    let mut error = joined("interface `", entry.name.as_str());
                    error.push_str("` has two ");
                    match address.family() {
                        AddressFamily::V4 => error.push_str("V4"),
                        AddressFamily::V6 => error.push_str("V6"),
                    }
                    error.push_str(" addresses");
                    return Err(error);
                }
                interfaces[place].addresses.push(address);
            } else {
                let mut addresses: Vec<InterfaceAddress> = Vec::new();
                addresses.push(address);
                proof {
                    assert(addresses@ =~= seq![entry@.address()]);
                }
                interfaces.push(Interface { name: entry.name.clone(), addresses });
            }
            proof {
                assert(!clashes(before, entry@));
                law_merge_keeps_interfaces_valid(before, entry@);
                assert(interface_views(interfaces@) =~= merged(before, entry@));
            }
            i = i + 1;
        }
        proof {
            assert(lines.take(i as int) =~= lines);
            assert forall|k: int| !#[trigger] first_clash(lines, k) by {
                if 0 <= k < lines.len() {
                    assert(!clashes(all_merged(lines.take(k)), lines[k]));
                }
            }
        }
        let default_index: usize = match default_name {
            None => 0,
            Some(name) => {
                let place: usize = place_of(&interfaces, name);
                if place >= interfaces.len() {
                    let mut error = joined("default_interface `", name);
                    error.push_str("` is not a configured interface");
                    return Err(error);
                }
                place
            },
        };
        Ok(InterfaceTable { interfaces, default_index })
    }

    /// A table of one interface.
    pub fn single(bind: IpAddress, advertised: Option<IpAddress>) -> (table: Self)
        ensures
            table.wf(),
            table@.default_index == 0,
            table@.interfaces == seq![
                InterfaceView {
                    name: "default"@,
                    addresses: seq![
                        InterfaceAddress {
                            bind,
                            advertised: match advertised {
                                Some(ip) => ip,
                                None => bind,
                            },
                        },
                    ],
                },
            ],
    {
        let mut addresses: Vec<InterfaceAddress> = Vec::new();
        addresses.push(
            InterfaceAddress {
                bind,
                advertised: match advertised {
                    Some(ip) => ip,
                    None => bind,
                },
            },
        );
        let ghost wanted = addresses@[0];
        proof {
            assert(addresses@ =~= seq![wanted]);
        }
        let mut interfaces: Vec<Interface> = Vec::new();
        interfaces.push(Interface { name: owned("default"), addresses });
        let table = InterfaceTable { interfaces, default_index: 0 };
        proof {
            assert(table@.interfaces =~= seq![InterfaceView { name: "default"@, addresses: seq![wanted] }]);
        }
        table
    }

    /// The interface that is used where a call names none.
    pub fn default_interface(&self) -> (interface: &Interface)
        requires
            self.wf(),
        ensures
            interface@ == self@.interfaces[self@.default_index],
    {
        &self.interfaces[self.default_index]
    }

    /// The interface with a name.
    pub fn find(&self, name: &str) -> (interface: Option<&Interface>)
        ensures
            interface is Some == named(self@.interfaces, name@),
            interface matches Some(found) ==> found@ == self@.interfaces[index_of(self@.interfaces, name@)],
    {
        let place: usize = place_of(&self.interfaces, name);
        if place < self.interfaces.len() {
            Some(&self.interfaces[place])
        } else {
            None
        }
    }

    /// The interface of a slot: the named one, or the default where the slot is empty or names none.
    fn resolve_slot(&self, name: Option<&String>) -> (interface: &Interface)
        requires
            self.wf(),
        ensures
            interface@ == self@.slot(
                match name {
                    Some(text) => Some(text@),
                    None => None,
                },
            ),
    {
        match name {
            None => self.default_interface(),
            Some(slot) => {
                if slot.as_str().is_empty() {
                    return self.default_interface();
                }
                match self.find(slot.as_str()) {
                    Some(interface) => interface,
                    None => self.default_interface(),
                }
            },
        }
    }

    /// The interfaces of a call's direction: the first name is the offerer's side, the second the
    /// answerer's.
    pub fn resolve_direction(&self, direction: &[String]) -> (sides: (&Interface, &Interface))
        requires
            self.wf(),
        ensures
            sides.0@ == self@.slot(
                if direction@.len() > 0 {
                    Some(direction@[0]@)
                } else {
                    None
                },
            ),
            sides.1@ == self@.slot(
                if direction@.len() > 1 {
                    Some(direction@[1]@)
                } else {
                    None
                },
            ),
    {
        let near = if direction.len() > 0 {
            self.resolve_slot(Some(&direction[0]))
        } else {
            self.resolve_slot(None)
        };
        let far = if direction.len() > 1 {
            self.resolve_slot(Some(&direction[1]))
        } else {
            self.resolve_slot(None)
        };
        (near, far)
    }

    /// The advertised addresses of all interfaces, each once, without wildcards.
    pub fn advertised_media_addresses(&self) -> (addresses: Vec<IpAddress>)
        ensures
            addresses@ == advertised_of(self@.interfaces),
    {
        let mut out: Vec<IpAddress> = Vec::new();
        let mut i: usize = 0;
        while i < self.interfaces.len()
            invariant
                i <= self.interfaces@.len(),
                out@ == advertised_of(self@.interfaces.take(i as int)),
            decreases self.interfaces@.len() - i,
        {
            let ghost before = out@;
            let interface = &self.interfaces[i];
            let mut j: usize = 0;
            proof {
                assert(interface.addresses@.take(0) =~= Seq::empty());
            }
            while j < interface.addresses.len()
                invariant
                    j <= interface.addresses@.len(),
                    out@ == noted(before, interface.addresses@.take(j as int)),
                decreases interface.addresses@.len() - j,
            {
                let advertised: IpAddress = interface.addresses[j].advertised;
                proof {
                    assert(interface.addresses@.take(j + 1).drop_last() =~= interface.addresses@.take(j as int));
                }
                if !advertised.is_unspecified() && !has_address(&out, advertised) {
                    out.push(advertised);
                }
                j = j + 1;
            }
            proof {
                assert(interface.addresses@.take(j as int) =~= interface.addresses@);
                assert(self@.interfaces.take(i + 1).drop_last() =~= self@.interfaces.take(i as int));
                assert(self@.interfaces.take(i + 1).last() == interface@);
            }
            i = i + 1;
        }
        proof {
            assert(self@.interfaces.take(i as int) =~= self@.interfaces);
        }
        out
    }
}

/// A list with the advertised addresses that are neither wildcards nor there already.
pub open spec fn noted(known: Seq<IpAddress>, addresses: Seq<InterfaceAddress>) -> Seq<IpAddress>
    decreases addresses.len(),
{
    if addresses.len() == 0 {
        known
    } else {
        let prior = noted(known, addresses.drop_last());
        let next = addresses.last().advertised;
        if next.unspecified() || prior.contains(next) {
            prior
        } else {
            prior.push(next)
        }
    }
}

/// The advertised addresses of a list of interfaces.
pub open spec fn advertised_of(interfaces: Seq<InterfaceView>) -> Seq<IpAddress>
    decreases interfaces.len(),
{
    if interfaces.len() == 0 {
        Seq::empty()
    } else {
        noted(advertised_of(interfaces.drop_last()), interfaces.last().addresses)
    }
}

/// Noting addresses repeats none and adds no wildcard.
proof fn lemma_noted(known: Seq<IpAddress>, addresses: Seq<InterfaceAddress>)
    requires
        known.no_duplicates(),
        forall|i: int| 0 <= i < known.len() ==> !(#[trigger] known[i]).unspecified(),
    ensures
        noted(known, addresses).no_duplicates(),
        forall|i: int| 0 <= i < noted(known, addresses).len() ==> !(#[trigger] noted(known, addresses)[i]).unspecified(),
    decreases addresses.len(),
{
    if addresses.len() > 0 {
        lemma_noted(known, addresses.drop_last());
    }
}

/// No address is advertised twice, and no wildcard is.
pub proof fn law_advertised_addresses(interfaces: Seq<InterfaceView>)
    ensures
        advertised_of(interfaces).no_duplicates(),
        forall|i: int|
            0 <= i < advertised_of(interfaces).len() ==> !(#[trigger] advertised_of(interfaces)[i]).unspecified(),
    decreases interfaces.len(),
{
    if interfaces.len() > 0 {
        law_advertised_addresses(interfaces.drop_last());
        lemma_noted(advertised_of(interfaces.drop_last()), interfaces.last().addresses);
    }
}

/// The place of the first interface with a name.
fn place_of(interfaces: &Vec<Interface>, name: &str) -> (place: usize)
    ensures
        place == index_of(interface_views(interfaces@), name@),
        place <= interfaces@.len(),
        place < interfaces@.len() ==> interfaces@[place as int].name@ == name@,
{
    let wanted = owned(name);
    let mut i: usize = 0;
    while i < interfaces.len()
        invariant
            i <= interfaces@.len(),
            wanted@ == name@,
            forall|j: int| 0 <= j < i ==> (#[trigger] interface_views(interfaces@)[j]).name != name@,
        decreases interfaces@.len() - i,
    {
        if interfaces[i].name == wanted {
            proof {
                lemma_index_is(interface_views(interfaces@), name@, i as int);
            }
            return i;
        }
        i = i + 1;
    }
    proof {
        lemma_index_is(interface_views(interfaces@), name@, i as int);
    }
    i
}

/// Whether a list holds an address.
fn has_address(addresses: &Vec<IpAddress>, wanted: IpAddress) -> (found: bool)
    ensures
        found == addresses@.contains(wanted),
{
    let mut i: usize = 0;
    while i < addresses.len()
        invariant
            i <= addresses@.len(),
            forall|j: int| 0 <= j < i ==> addresses@[j] != wanted,
        decreases addresses@.len() - i,
    {
        if addresses[i] == wanted {
            return true;
        }
        i = i + 1;
    }
    false
}

/// A line stands for the address it binds, under the advertised address where it has one.
pub proof fn law_lines_advertise(entry: InterfaceEntryView)
    ensures
        entry.address().bind == entry.bind,
        entry.advertised matches Some(told) ==> entry.address().advertised == told,
        entry.advertised is None ==> entry.address().advertised == entry.bind,
{
}

/// The address of a family is the only one: a valid interface never has to choose.
pub proof fn law_one_address_of_a_family(interface: InterfaceView, family: AddressFamily, i: int)
    requires
        interface.wf(),
        0 <= i < interface.addresses.len(),
    ensures
        interface.first_of(family, i) <==> interface.addresses[i].bind.family_spec() == family,
        interface.addresses[i].bind.family_spec() == family ==> interface.serves(family),
{
}

/// A call's side is on the interface it names, and on the default where it names none or one that is not there.
pub proof fn law_side_is_on_the_named_interface(table: InterfaceTableView, name: Seq<char>, i: int)
    requires
        table.wf(),
        0 <= i < table.interfaces.len(),
    ensures
        name.len() > 0 && table.interfaces[i].name == name ==> table.slot(Some(name)) == table.interfaces[i],
        (forall|j: int| 0 <= j < table.interfaces.len() ==> (#[trigger] table.interfaces[j]).name != name)
            ==> table.slot(Some(name)) == table.interfaces[table.default_index],
        name.len() == 0 ==> table.slot(Some(name)) == table.interfaces[table.default_index],
        table.slot(None) == table.interfaces[table.default_index],
{
    lemma_index_of(table.interfaces, name);
    let at = index_of(table.interfaces, name);
    if table.interfaces[i].name == name {
        if at < i {
            assert(table.interfaces[at].name == name);
        } else if at > i {
            assert(table.interfaces[i].name != name);
        }
    }
}

/// An address among those of a name comes from one of the lines with that name, and the address of every such
/// line is among them.
proof fn lemma_addresses_of_lines(entries: Seq<InterfaceEntryView>, name: Seq<char>)
    ensures
        forall|i: int|
            0 <= i < addresses_of(entries, name).len() ==> exists|j: int|
                0 <= j < entries.len() && (#[trigger] entries[j]).name == name && entries[j].address()
                    == #[trigger] addresses_of(entries, name)[i],
        forall|j: int|
            0 <= j < entries.len() && (#[trigger] entries[j]).name == name ==> exists|i: int|
                0 <= i < addresses_of(entries, name).len() && #[trigger] addresses_of(entries, name)[i]
                    == entries[j].address(),
    decreases entries.len(),
{
    reveal(Seq::filter);
    if entries.len() > 0 {
        let prior = entries.drop_last();
        let last = entries.last();
        let before = addresses_of(prior, name);
        let after = addresses_of(entries, name);
        let pred = |line: InterfaceEntryView| line.name == name;
        lemma_addresses_of_lines(prior, name);
        if last.name == name {
            assert(entries.filter(pred) =~= prior.filter(pred).push(last));
            assert(after =~= before.push(last.address()));
        } else {
            assert(entries.filter(pred) =~= prior.filter(pred));
            assert(after =~= before);
        }
        assert forall|i: int| 0 <= i < after.len() implies exists|j: int|
            0 <= j < entries.len() && (#[trigger] entries[j]).name == name && entries[j].address() == #[trigger] after[i] by {
            if i < before.len() {
                assert(before[i] == after[i]);
                let j = choose|j: int|
                    0 <= j < prior.len() && (#[trigger] prior[j]).name == name && prior[j].address() == before[i];
                assert(entries[j] == prior[j]);
            } else {
                assert(entries[entries.len() - 1].address() == after[i]);
            }
        }
        assert forall|j: int| 0 <= j < entries.len() && (#[trigger] entries[j]).name == name implies exists|i: int|
            0 <= i < after.len() && #[trigger] after[i] == entries[j].address() by {
            if j < prior.len() {
                assert(prior[j] == entries[j]);
                let i = choose|i: int| 0 <= i < before.len() && #[trigger] before[i] == prior[j].address();
                assert(after[i] == entries[j].address());
            } else {
                assert(after[after.len() - 1] == last.address());
            }
        }
    }
}

/// A line clashes exactly where an earlier one has its name and an address of its family.
pub proof fn law_what_clashes(entries: Seq<InterfaceEntryView>, k: int)
    requires
        0 <= k < entries.len(),
    ensures
        clashes(all_merged(entries.take(k)), entries[k]) <==> exists|j: int|
            0 <= j < k && (#[trigger] entries[j]).name == entries[k].name && entries[j].bind.family_spec()
                == entries[k].bind.family_spec(),
{
    let prior = entries.take(k);
    let line = entries[k];
    let family = line.bind.family_spec();
    law_interface_holds_its_lines(prior, line.name);
    lemma_addresses_of_lines(prior, line.name);
    let addresses = addresses_of(prior, line.name);
    if clashes(all_merged(prior), line) {
        let i = choose|i: int| 0 <= i < addresses.len() && (#[trigger] addresses[i]).bind.family_spec() == family;
        let j = choose|j: int|
            0 <= j < prior.len() && (#[trigger] prior[j]).name == line.name && prior[j].address() == addresses[i];
        assert(entries[j] == prior[j]);
    }
    if exists|j: int|
        0 <= j < k && (#[trigger] entries[j]).name == line.name && entries[j].bind.family_spec() == family {
        let j = choose|j: int|
            0 <= j < k && (#[trigger] entries[j]).name == line.name && entries[j].bind.family_spec() == family;
        assert(prior[j] == entries[j]);
        assert(mentioned(prior, line.name));
        let i = choose|i: int| 0 <= i < addresses.len() && #[trigger] addresses[i] == prior[j].address();
        assert(addresses[i].bind.family_spec() == family);
    }
}

/// Noting addresses loses none that was there and none that is no wildcard, and makes none up.
proof fn lemma_noted_is_whole(known: Seq<IpAddress>, addresses: Seq<InterfaceAddress>, address: IpAddress)
    ensures
        noted(known, addresses).contains(address) <==> known.contains(address) || (!address.unspecified() && exists|
            i: int,
        |
            0 <= i < addresses.len() && (#[trigger] addresses[i]).advertised == address),
    decreases addresses.len(),
{
    if addresses.len() > 0 {
        let prior = addresses.drop_last();
        let next = addresses.last().advertised;
        lemma_noted_is_whole(known, prior, address);
        let before = noted(known, prior);
        let after = noted(known, addresses);
        if before.contains(address) {
            let i = choose|i: int| 0 <= i < before.len() && before[i] == address;
            assert(after[i] == address);
        }
        if after.contains(address) && !before.contains(address) {
            let i = choose|i: int| 0 <= i < after.len() && after[i] == address;
            if i < before.len() {
                assert(before[i] == address);
            }
            assert(addresses[addresses.len() - 1].advertised == address);
        }
        if exists|i: int| 0 <= i < prior.len() && (#[trigger] prior[i]).advertised == address {
            let i = choose|i: int| 0 <= i < prior.len() && (#[trigger] prior[i]).advertised == address;
            assert(addresses[i].advertised == address);
        }
        if !address.unspecified() && next == address && !before.contains(address) {
            assert(after[after.len() - 1] == address);
        }
        if exists|i: int| 0 <= i < addresses.len() && (#[trigger] addresses[i]).advertised == address {
            let i = choose|i: int| 0 <= i < addresses.len() && (#[trigger] addresses[i]).advertised == address;
            if i < prior.len() {
                assert(prior[i].advertised == address);
            }
        }
    }
}

/// Every address that an interface advertises is among those of the engine, unless it is a wildcard, and no
/// other is.
pub proof fn law_every_address_is_advertised(interfaces: Seq<InterfaceView>, address: IpAddress)
    ensures
        advertised_of(interfaces).contains(address) <==> !address.unspecified() && exists|i: int, j: int|
            #![trigger interfaces[i].addresses[j]]
            0 <= i < interfaces.len() && 0 <= j < interfaces[i].addresses.len() && interfaces[i].addresses[j].advertised
                == address,
    decreases interfaces.len(),
{
    if interfaces.len() > 0 {
        let prior = interfaces.drop_last();
        let last = interfaces.last();
        let before = advertised_of(prior);
        law_every_address_is_advertised(prior, address);
        lemma_noted_is_whole(before, last.addresses, address);
        if before.contains(address) {
            let (i, j) = choose|i: int, j: int|
                #![trigger prior[i].addresses[j]]
                0 <= i < prior.len() && 0 <= j < prior[i].addresses.len() && prior[i].addresses[j].advertised
                    == address;
            assert(interfaces[i].addresses[j].advertised == address);
        }
        if advertised_of(interfaces).contains(address) && !before.contains(address) {
            let j = choose|j: int|
                0 <= j < last.addresses.len() && (#[trigger] last.addresses[j]).advertised == address;
            assert(interfaces[interfaces.len() - 1].addresses[j].advertised == address);
        }
        if !address.unspecified() && exists|i: int, j: int|
            #![trigger interfaces[i].addresses[j]]
            0 <= i < interfaces.len() && 0 <= j < interfaces[i].addresses.len() && interfaces[i].addresses[j].advertised
                == address {
            let (i, j) = choose|i: int, j: int|
                #![trigger interfaces[i].addresses[j]]
                0 <= i < interfaces.len() && 0 <= j < interfaces[i].addresses.len()
                    && interfaces[i].addresses[j].advertised == address;
            if i < prior.len() {
                assert(prior[i].addresses[j].advertised == address);
            } else {
                assert(last.addresses[j].advertised == address);
            }
        }
    }
}

} // verus!
