//! Table of all known gateways, with their connections, their packets and the router tasks that
//! their connections call for.
use vstd::prelude::*;
use vstd::std_specs::iter::IteratorSpec;
use std::collections::HashMap;
use crate::gateway_entry::{EntryView, GatewayEntry};
use crate::gateway_entry::{packet_views, same_but_for_connection};
use crate::gateway_info::{EventView, GatewayEvent, GatewayInfo, InfoView};
use crate::gateway_info::info_of;
use crate::keypair::{GatewayKeypair, KeypairError, KeypairView, MAX_SIGNATURE_LEN};
use crate::keypair::{bytes_view, is_paired, signature_accepted};
use crate::keys_dir::{mac_to_key_name, KeysDir};
use crate::keys_dir::named_views;
use crate::mac::{parse_mac_from_name, MacAddress};
use crate::mac::{
    hex_text, is_mac_text, law_key_names_are_unique, law_mac_keys_are_unique, mac_key, mac_of_text,
};
use crate::packet::{PacketMetadata, PacketView};

verus! {

broadcast use vstd::std_specs::hash::group_hash_axioms;

/// What a router task is started with.
pub struct RouterTask {
    pub mac: MacAddress,
    pub keypair: GatewayKeypair,
    pub router_uri: String,
    pub queue_size: u16,
}

/// What a router task is started with.
#[verifier::ext_equal]
pub struct TaskView {
    pub mac: Seq<u8>,
    pub keypair: KeypairView,
    pub router_uri: Seq<char>,
    pub queue_size: u16,
}

impl View for RouterTask {
    type V = TaskView;

    open spec fn view(&self) -> TaskView {
        TaskView {
            mac: self.mac@,
            keypair: self.keypair@,
            router_uri: self.router_uri@,
            queue_size: self.queue_size,
        }
    }
}

/// What is to be done with the router task of a gateway: first the old one is aborted, if there is
/// one to abort, then a new one is started.
pub struct TaskOrder {
    pub abort: bool,
    pub start: Option<RouterTask>,
}

/// What is to be done with a router task.
#[verifier::ext_equal]
pub struct OrderView {
    pub abort: bool,
    pub start: Option<TaskView>,
}

impl View for TaskOrder {
    type V = OrderView;

    open spec fn view(&self) -> OrderView {
        OrderView {
            abort: self.abort,
            start: match self.start {
                Some(task) => Some(task@),
                None => None,
            },
        }
    }
}

/// The gateway is not in the table, and there is no keypair to enter it with.
#[derive(Clone, Copy, Debug)]
pub struct NotProvisioned;

/// What is to be done with an uplink packet: the order on the router task comes first, then the
/// packet goes to the task, if it is to be delivered.
pub struct UplinkPlan {
    pub order: TaskOrder,
    pub deliver: bool,
}

/// The fields of an add-gateway transaction.
pub struct AddGatewayTxn {
    /// Public key of the gateway, in binary form.
    pub gateway: Vec<u8>,
    pub owner: Vec<u8>,
    pub payer: Vec<u8>,
    /// Signature of the gateway; empty until it has signed.
    pub gateway_signature: Vec<u8>,
}

/// Result of creating an add-gateway transaction.
pub struct AddGatewayResult {
    /// Full encoded transaction (with signature).
    pub encoded: Vec<u8>,
    /// Unsigned message (signature field cleared).
    pub unsigned_msg: Vec<u8>,
    /// Gateway signature.
    pub signature: Vec<u8>,
}

/// Table of all known gateways with their state.
pub struct GatewayTable {
    /// Gateway entries by the number of their MAC address.
    entries: HashMap<u64, GatewayEntry>,
    /// Directory that keypairs are loaded from and created in.
    keys_dir: KeysDir,
    /// Router that the tasks connect to.
    router_uri: String,
    /// Queue size for packet buffering.
    queue_size: u16,
    /// LoRaWAN region of this instance.
    region: String,
}

/// What a table holds.
#[verifier::ext_equal]
pub struct TableView {
    pub entries: Map<u64, EntryView>,
    pub keys_dir: Seq<char>,
    pub router_uri: Seq<char>,
    pub queue_size: u16,
    pub region: Seq<char>,
}

/// What an optional keypair holds.
pub open spec fn keypair_view(keypair: Option<GatewayKeypair>) -> Option<KeypairView> {
    match keypair {
        Some(k) => Some(k@),
        None => None,
    }
}

/// The gateways of named keypairs: a keypair whose name is a MAC address belongs to that gateway,
/// and the last one of a gateway counts. Other keypairs are passed over.
pub open spec fn named_entries(keypairs: Seq<(Seq<char>, KeypairView)>) -> Map<u64, EntryView>
    decreases keypairs.len(),
{
    if keypairs.len() == 0 {
        Map::empty()
    } else {
        let earlier = named_entries(keypairs.drop_last());
        let (name, keypair) = keypairs.last();
        if is_mac_text(name) {
            earlier.insert(
                mac_key(mac_of_text(name)),
                EntryView::fresh(mac_of_text(name), keypair),
            )
        } else {
            earlier
        }
    }
}

impl TableView {
    /// Every gateway stands under the number of its MAC address, and its state is valid.
    pub open spec fn wf(self) -> bool {
        forall|k: u64| #[trigger]
            self.entries.contains_key(k) ==> self.entries[k].wf() && mac_key(self.entries[k].mac)
                == k
    }

    /// Whether the gateway is in the table.
    pub open spec fn knows(self, mac: Seq<u8>) -> bool {
        self.entries.contains_key(mac_key(mac))
    }

    /// The state of a gateway in the table.
    pub open spec fn entry(self, mac: Seq<u8>) -> EntryView {
        self.entries[mac_key(mac)]
    }

    /// Whether the public key of a gateway can be shown, if the gateway is in the table.
    pub open spec fn shows(self, mac: Seq<u8>) -> bool {
        self.knows(mac) ==> self.entry(mac).keypair.is_shown()
    }

    /// Whether the public keys of all gateways can be shown.
    pub open spec fn shows_all(self) -> bool {
        forall|k: u64| #[trigger]
            self.entries.contains_key(k) ==> self.entries[k].keypair.is_shown()
    }

    /// The table with another state of a gateway.
    pub open spec fn with(self, mac: Seq<u8>, entry: EntryView) -> TableView {
        TableView { entries: self.entries.insert(mac_key(mac), entry), ..self }
    }

    /// The state of a gateway: as it is in the table, else that of a new gateway with the keypair
    /// at hand. `None` if there is neither.
    pub open spec fn found_or_fresh(
        self,
        mac: Seq<u8>,
        provisioned: Option<KeypairView>,
    ) -> Option<EntryView> {
        if self.knows(mac) {
            Some(self.entry(mac))
        } else {
            match provisioned {
                Some(keypair) => Some(EntryView::fresh(mac, keypair)),
                None => None,
            }
        }
    }

    /// What the router task of a gateway is started with.
    pub open spec fn task(self, entry: EntryView) -> TaskView {
        TaskView {
            mac: entry.mac,
            keypair: entry.keypair,
            router_uri: self.router_uri,
            queue_size: self.queue_size,
        }
    }

    /// The order that connects a gateway.
    pub open spec fn connect_order(self, entry: EntryView) -> OrderView {
        OrderView { abort: entry.connected && entry.task_handle, start: Some(self.task(entry)) }
    }

    /// What an uplink packet that came at `now` makes of its gateway: the gateway's state, the
    /// order on its router task, and whether the packet is delivered. A known gateway without a
    /// live connection is connected again, and the packet is not delivered; a new gateway is
    /// connected first. `None` if the gateway is not known and there is no keypair at hand.
    pub open spec fn uplink(
        self,
        mac: Seq<u8>,
        provisioned: Option<KeypairView>,
        now: u64,
        task_finished: bool,
    ) -> Option<(EntryView, OrderView, bool)> {
        if self.knows(mac) {
            let entry = self.entry(mac).note_uplink(now).check_task(task_finished);
            if entry.connected {
                Some((entry, OrderView { abort: false, start: None }, true))
            } else {
                Some((entry.connect(now), self.connect_order(entry), false))
            }
        } else {
            match provisioned {
                Some(keypair) => {
                    let entry = EntryView::fresh(mac, keypair);
                    Some((entry.connect(now).note_uplink(now), self.connect_order(entry), true))
                },
                None => None,
            }
        }
    }

    /// The table in which a gateway, if known, has another state.
    pub open spec fn changed(self, mac: Seq<u8>, entry: EntryView) -> TableView {
        if self.knows(mac) {
            self.with(mac, entry)
        } else {
            self
        }
    }
}

/// What is done with a table.
pub enum TableOp {
    Connect { mac: Seq<u8>, provisioned: Option<KeypairView>, now: u64 },
    Disconnect { mac: Seq<u8> },
    Uplink { mac: Seq<u8>, provisioned: Option<KeypairView>, now: u64, task_finished: bool },
    UplinkFailed { mac: Seq<u8>, now: u64 },
    PublicKey { mac: Seq<u8>, provisioned: Option<KeypairView> },
    RecordUplink { mac: Seq<u8>, metadata: PacketView },
    RecordDownlink { mac: Seq<u8>, metadata: PacketView },
    Locate { mac: Seq<u8>, latitude: u64, longitude: u64, altitude: Option<i64> },
}

impl TableOp {
    /// The gateway that it is done for.
    pub open spec fn mac(self) -> Seq<u8> {
        match self {
            TableOp::Connect { mac, provisioned, now } => mac,
            TableOp::Disconnect { mac } => mac,
            TableOp::Uplink { mac, provisioned, now, task_finished } => mac,
            TableOp::UplinkFailed { mac, now } => mac,
            TableOp::PublicKey { mac, provisioned } => mac,
            TableOp::RecordUplink { mac, metadata } => mac,
            TableOp::RecordDownlink { mac, metadata } => mac,
            TableOp::Locate { mac, latitude, longitude, altitude } => mac,
        }
    }
}

impl TableView {
    /// The table after an operation.
    pub open spec fn after(self, op: TableOp) -> TableView {
        match op {
            TableOp::Connect { mac, provisioned, now } => match self.found_or_fresh(
                mac,
                provisioned,
            ) {
                Some(entry) => self.with(mac, entry.connect(now)),
                None => self,
            },
            TableOp::Disconnect { mac } => self.changed(mac, self.entry(mac).disconnect()),
            TableOp::Uplink { mac, provisioned, now, task_finished } => match self.uplink(
                mac,
                provisioned,
                now,
                task_finished,
            ) {
                Some((entry, _, _)) => self.with(mac, entry),
                None => self,
            },
            TableOp::UplinkFailed { mac, now } => self.changed(
                mac,
                self.entry(mac).disconnect().connect(now),
            ),
            TableOp::PublicKey { mac, provisioned } => match self.found_or_fresh(
                mac,
                provisioned,
            ) {
                Some(entry) => self.with(mac, entry),
                None => self,
            },
            TableOp::RecordUplink { mac, metadata } => self.changed(
                mac,
                self.entry(mac).record_uplink(metadata),
            ),
            TableOp::RecordDownlink { mac, metadata } => self.changed(
                mac,
                self.entry(mac).record_downlink().store_packet(metadata),
            ),
            TableOp::Locate { mac, latitude, longitude, altitude } => self.changed(
                mac,
                self.entry(mac).locate(latitude, longitude, altitude),
            ),
        }
    }

    /// The table after a number of operations, one after the other.
    pub open spec fn after_all(self, ops: Seq<TableOp>) -> TableView
        decreases ops.len(),
    {
        if ops.len() == 0 {
            self
        } else {
            self.after_all(ops.drop_last()).after(ops.last())
        }
    }
}

/// Whether a list is the information on all gateways of a table, each once, in this order of their
/// numbers.
pub open spec fn lists_all(
    infos: Seq<InfoView>,
    table: TableView,
    now: u64,
    order: Seq<u64>,
) -> bool {
    &&& order.no_duplicates()
    &&& order.to_set() == table.entries.dom()
    &&& infos.len() == order.len()
    &&& forall|i: int|
        0 <= i < infos.len() ==> #[trigger] infos[i] == info_of(
            table.entries[order[i]],
            table.region,
            now,
        )
}

/// What a list of gateway information holds.
pub open spec fn info_views(infos: Seq<GatewayInfo>) -> Seq<InfoView> {
    infos.map_values(|info: GatewayInfo| info@)
}

impl View for GatewayTable {
    type V = TableView;

    closed spec fn view(&self) -> TableView {
        TableView {
            entries: self.entries@.map_values(|e: GatewayEntry| e@),
            keys_dir: self.keys_dir@,
            router_uri: self.router_uri@,
            queue_size: self.queue_size,
            region: self.region@,
        }
    }
}

impl GatewayTable {
    /// Makes a table of the gateways whose keypairs were loaded from the keys directory.
    pub fn new(
        keys_dir: KeysDir,
        router_uri: String,
        queue_size: u16,
        region: String,
        keypairs: Vec<(String, GatewayKeypair)>,
    ) -> (table: GatewayTable)
        ensures
            table@ == (TableView {
                entries: named_entries(named_views(keypairs@)),
                keys_dir: keys_dir@,
                router_uri: router_uri@,
                queue_size,
                region: region@,
            }),
            table@.wf(),
    {
        let mut table = GatewayTable {
            entries: HashMap::new(),
            keys_dir,
            router_uri,
            queue_size,
            region,
        };
        assert(table@.entries =~= Map::<u64, EntryView>::empty());
        table.load_existing_keys(keypairs);
        table
    }

    /// Enters the gateways of named keypairs into an empty table.
    fn load_existing_keys(&mut self, keypairs: Vec<(String, GatewayKeypair)>)
        requires
            old(self)@.entries == Map::<u64, EntryView>::empty(),
        ensures
            final(self)@ == (TableView {
                entries: named_entries(named_views(keypairs@)),
                ..old(self)@
            }),
            final(self)@.wf(),
    {
        let ghost views = named_views(keypairs@);
        let ghost before = self@;
        let mut i: usize = 0;
        assert(views.take(0) =~= Seq::<(Seq<char>, KeypairView)>::empty());
        while i < keypairs.len()
            invariant
                i <= keypairs@.len(),
                views == named_views(keypairs@),
                self@ == (TableView { entries: named_entries(views.take(i as int)), ..before }),
                self@.wf(),
            decreases keypairs@.len() - i,
        {
            proof {
                assert(views.take(i + 1).drop_last() =~= views.take(i as int));
                assert(views.take(i + 1).last() == (
                    keypairs@[i as int].0@,
                    keypairs@[i as int].1@,
                ));
            }
            if let Some(mac) = parse_mac_from_name(keypairs[i].0.as_str()) {
                let entry = GatewayEntry::new(mac, keypairs[i].1.clone());
                self.put(entry);
            }
            i += 1;
        }
        assert(views.take(i as int) =~= views);
    }

    /// Takes the state of a gateway out of the table.
    fn take(&mut self, mac: &MacAddress) -> (found: Option<GatewayEntry>)
        requires
            old(self)@.wf(),
        ensures
            final(self)@ == (TableView {
                entries: old(self)@.entries.remove(mac_key(mac@)),
                ..old(self)@
            }),
            match found {
                Some(entry) => old(self)@.knows(mac@) && entry@ == old(self)@.entry(mac@),
                None => !old(self)@.knows(mac@),
            },
    {
        let key: u64 = mac.key();
        let found = self.entries.remove(&key);
        assert(self@.entries =~= old(self)@.entries.remove(key));
        found
    }

    /// Puts the state of a gateway into the table.
    fn put(&mut self, entry: GatewayEntry)
        ensures
            final(self)@ == old(self)@.with(entry@.mac, entry@),
    {
        let key: u64 = entry.mac().key();
        self.entries.insert(key, entry);
        assert(self@.entries =~= old(self)@.entries.insert(key, entry@));
    }

    /// Finds the state of a gateway in the table.
    fn find(&self, mac: &MacAddress) -> (found: Option<&GatewayEntry>)
        ensures
            match found {
                Some(entry) => self@.knows(mac@) && entry@ == self@.entry(mac@),
                None => !self@.knows(mac@),
            },
    {
        let key: u64 = mac.key();
        self.entries.get(&key)
    }

    /// Takes the state of a gateway out of the table, or makes that of a new gateway with the
    /// keypair at hand.
    fn take_or_new(
        &mut self,
        mac: &MacAddress,
        provisioned: Option<GatewayKeypair>,
    ) -> (found: Option<GatewayEntry>)
        requires
            old(self)@.wf(),
        ensures
            match found {
                Some(entry) => {
                    &&& old(self)@.found_or_fresh(mac@, keypair_view(provisioned)) == Some(entry@)
                    &&& entry@.wf()
                    &&& entry@.mac == mac@
                    &&& final(self)@ == (TableView {
                        entries: old(self)@.entries.remove(mac_key(mac@)),
                        ..old(self)@
                    })
                },
                None => {
                    &&& old(self)@.found_or_fresh(mac@, keypair_view(provisioned)) is None
                    &&& final(self)@ == old(self)@
                },
            },
    {
        match self.take(mac) {
            Some(entry) => {
                proof {
                    law_mac_keys_are_unique(entry@.mac, mac@);
                }
                Some(entry)
            },
            None => {
                assert(self@.entries =~= old(self)@.entries);
                match provisioned {
                    Some(keypair) => Some(GatewayEntry::new(*mac, keypair)),
                    None => None,
                }
            },
        }
    }

    /// What the router task of a gateway is started with.
    fn task(&self, entry: &GatewayEntry) -> (task: RouterTask)
        ensures
            task@ == self@.task(entry@),
    {
        RouterTask {
            mac: entry.mac(),
            keypair: entry.keypair().clone(),
            router_uri: self.router_uri.clone(),
            queue_size: self.queue_size,
        }
    }

    /// The keys directory.
    pub fn keys_dir(&self) -> (dir: &KeysDir)
        ensures
            dir@ == self@.keys_dir,
    {
        &self.keys_dir
    }

    /// Tells whether a gateway is in the table. One that is not needs a keypair to be entered.
    pub fn knows(&self, mac: &MacAddress) -> (known: bool)
        ensures
            known == self@.knows(mac@),
    {
        let key: u64 = mac.key();
        self.entries.contains_key(&key)
    }

    /// Handles a gateway connection: the gateway is entered if it is new, and gets a new router
    /// task. `provisioned` is the keypair of a gateway that is not in the table.
    pub fn on_connect(
        &mut self,
        mac: MacAddress,
        provisioned: Option<GatewayKeypair>,
        now: u64,
    ) -> (result: Result<(TaskOrder, GatewayEvent), NotProvisioned>)
        requires
            old(self)@.wf(),
        ensures
            final(self)@.wf(),
            final(self)@ == old(self)@.after(TableOp::Connect {
                mac: mac@,
                provisioned: keypair_view(provisioned),
                now,
            }),
            match old(self)@.found_or_fresh(mac@, keypair_view(provisioned)) {
                Some(entry) => {
                    &&& result matches Ok((order, event))
                    &&& final(self)@ == old(self)@.with(mac@, entry.connect(now))
                    &&& order@ == old(self)@.connect_order(entry)
                    &&& event@ == (EventView::Connect {
                        mac: hex_text(mac@),
                        region: old(self)@.region,
                    })
                },
                None => result is Err && final(self)@ == old(self)@,
            },
    {
        let mut entry = match self.take_or_new(&mac, provisioned) {
            Some(entry) => entry,
            None => {
                return Err(NotProvisioned);
            },
        };
        let task = self.task(&entry);
        let abort = entry.connect(now);
        self.put(entry);
        assert(self@ =~= old(self)@.with(mac@, entry@));
        Ok(
            (
                TaskOrder { abort, start: Some(task) },
                GatewayEvent::Connect { mac: mac_to_key_name(&mac), region: self.region.clone() },
            ),
        )
    }

    /// Handles a gateway disconnection. Tells whether there is a router task to abort.
    pub fn on_disconnect(&mut self, mac: MacAddress) -> (result: (bool, GatewayEvent))
        requires
            old(self)@.wf(),
        ensures
            final(self)@.wf(),
            final(self)@ == old(self)@.after(TableOp::Disconnect { mac: mac@ }),
            final(self)@ == old(self)@.changed(mac@, old(self)@.entry(mac@).disconnect()),
            result.0 == (old(self)@.knows(mac@) && old(self)@.entry(mac@).connected),
            result.1@ == (EventView::Disconnect {
                mac: hex_text(mac@),
                region: old(self)@.region,
            }),
    {
        let mut abort = false;
        if let Some(entry) = self.take_or_new(&mac, None) {
            let mut entry = entry;
            abort = entry.disconnect();
            self.put(entry);
            assert(self@ =~= old(self)@.with(mac@, old(self)@.entry(mac@).disconnect()));
        }
        (
            abort,
            GatewayEvent::Disconnect { mac: mac_to_key_name(&mac), region: self.region.clone() },
        )
    }

    /// Takes in an uplink packet of a gateway that came at `now`. A gateway that is new is entered
    /// and connected. A packet that meets a dead router task is not delivered, and the task is
    /// started again; `task_finished` tells that the router task of a known gateway has ended.
    pub fn send_uplink(
        &mut self,
        mac: MacAddress,
        provisioned: Option<GatewayKeypair>,
        now: u64,
        task_finished: bool,
    ) -> (result: Result<UplinkPlan, NotProvisioned>)
        requires
            old(self)@.wf(),
        ensures
            final(self)@.wf(),
            final(self)@ == old(self)@.after(TableOp::Uplink {
                mac: mac@,
                provisioned: keypair_view(provisioned),
                now,
                task_finished,
            }),
            match old(self)@.uplink(mac@, keypair_view(provisioned), now, task_finished) {
                Some((entry, order, deliver)) => {
                    &&& result matches Ok(plan)
                    &&& final(self)@ == old(self)@.with(mac@, entry)
                    &&& plan.order@ == order
                    &&& plan.deliver == deliver
                },
                None => result is Err && final(self)@ == old(self)@,
            },
    {
        let known = self.knows(&mac);
        let mut entry = match self.take_or_new(&mac, provisioned) {
            Some(entry) => entry,
            None => {
                return Err(NotProvisioned);
            },
        };
        let task = self.task(&entry);
        let mut order = TaskOrder { abort: false, start: None };
        let deliver: bool;
        if known {
            deliver = entry.send_uplink(now, task_finished);
            if !deliver {
                let abort = entry.connect(now);
                order = TaskOrder { abort, start: Some(task) };
            }
        } else {
            let abort = entry.connect(now);
            order = TaskOrder { abort, start: Some(task) };
            deliver = entry.send_uplink(now, false);
        }
        self.put(entry);
        assert(self@ =~= old(self)@.with(mac@, entry@));
        Ok(UplinkPlan { order, deliver })
    }

    /// Handles an uplink packet that could not be handed to the router task of its gateway: the
    /// task is gone and is started again. `None` if the gateway is not in the table.
    pub fn uplink_failed(&mut self, mac: MacAddress, now: u64) -> (order: Option<TaskOrder>)
        requires
            old(self)@.wf(),
        ensures
            final(self)@.wf(),
            final(self)@ == old(self)@.after(TableOp::UplinkFailed { mac: mac@, now }),
            final(self)@ == old(self)@.changed(
                mac@,
                old(self)@.entry(mac@).disconnect().connect(now),
            ),
            match order {
                Some(order) => {
                    &&& old(self)@.knows(mac@)
                    &&& order@ == old(self)@.connect_order(old(self)@.entry(mac@).disconnect())
                },
                None => !old(self)@.knows(mac@),
            },
    {
        let mut entry = match self.take_or_new(&mac, None) {
            Some(entry) => entry,
            None => {
                return None;
            },
        };
        entry.lose_task();
        let task = self.task(&entry);
        let abort = entry.connect(now);
        self.put(entry);
        assert(self@ =~= old(self)@.with(mac@, entry@));
        Some(TaskOrder { abort, start: Some(task) })
    }

    /// Gets the public key of a gateway, in binary form, if it can be written. A gateway that is
    /// new is entered.
    pub fn get_public_key(
        &mut self,
        mac: MacAddress,
        provisioned: Option<GatewayKeypair>,
    ) -> (result: Result<Option<Vec<u8>>, NotProvisioned>)
        requires
            old(self)@.wf(),
        ensures
            final(self)@.wf(),
            final(self)@ == old(self)@.after(TableOp::PublicKey {
                mac: mac@,
                provisioned: keypair_view(provisioned),
            }),
            match old(self)@.found_or_fresh(mac@, keypair_view(provisioned)) {
                Some(entry) => {
                    &&& result matches Ok(public_key)
                    &&& bytes_view(public_key) == entry.keypair.public_key
                    &&& final(self)@ == old(self)@.with(mac@, entry)
                },
                None => result is Err && final(self)@ == old(self)@,
            },
    {
        let entry = match self.take_or_new(&mac, provisioned) {
            Some(entry) => entry,
            None => {
                return Err(NotProvisioned);
            },
        };
        let public_key = entry.public_key();
        self.put(entry);
        assert(self@ =~= old(self)@.with(mac@, entry@));
        Ok(public_key)
    }

    /// Tells whether the public key of a gateway can be shown, if the gateway is in the table.
    pub fn shows(&self, mac: &MacAddress) -> (shown: bool)
        ensures
            shown == self@.shows(mac@),
    {
        match self.find(mac) {
            Some(entry) => entry.keypair().is_shown(),
            None => true,
        }
    }

    /// Tells whether the public keys of all gateways can be shown.
    pub fn shows_all(&self) -> (shown: bool)
        ensures
            shown == self@.shows_all(),
    {
        let mut shown = true;
        let ghost pairs = self.entries.iter().remaining();
        for pair in it: self.entries.iter()
            invariant
                pairs == it.seq(),
                shown == (forall|i: int|
                    0 <= i < it.index() ==> (#[trigger] pairs[i]).1@.keypair.is_shown()),
        {
            if !pair.1.keypair().is_shown() {
                shown = false;
            }
        }
        proof {
            let table = self.entries@;
            if shown {
                assert forall|k: u64| #[trigger] self@.entries.contains_key(
                    k,
                ) implies self@.entries[k].keypair.is_shown() by {
                    assert(pairs.contains((&k, &table[k])));
                    let i = choose|i: int| 0 <= i < pairs.len() && pairs[i] == (&k, &table[k]);
                    assert(pairs[i].1@.keypair.is_shown());
                }
            } else {
                let i = choose|i: int|
                    0 <= i < pairs.len() && !(#[trigger] pairs[i]).1@.keypair.is_shown();
                assert(table[*pairs[i].0] == *pairs[i].1);
                assert(self@.entries.contains_key(*pairs[i].0));
            }
        }
        shown
    }

    /// Gets the information on all gateways, each once. Their order is left open.
    pub fn list_gateways(&self, now: u64) -> (infos: Vec<GatewayInfo>)
        requires
            self@.shows_all(),
        ensures
            exists|order: Seq<u64>| lists_all(info_views(infos@), self@, now, order),
    {
        let mut infos: Vec<GatewayInfo> = Vec::new();
        let ghost mut order: Seq<u64> = Seq::empty();
        let ghost pairs = self.entries.iter().remaining();
        for pair in it: self.entries.iter()
            invariant
                pairs == it.seq(),
                pairs == self.entries.iter().remaining(),
                pairs.no_duplicates(),
                self@.shows_all(),
                order.len() == it.index(),
                forall|i: int| 0 <= i < order.len() ==> #[trigger] order[i] == *pairs[i].0,
                infos@.len() == it.index(),
                forall|i: int|
                    0 <= i < infos@.len() ==> #[trigger] infos@[i]@ == info_of(
                        pairs[i].1@,
                        self@.region,
                        now,
                    ),
        {
            proof {
                let i = it.index() as int;
                assert(self.entries@[*pairs[i].0] == *pairs[i].1);
                assert(self@.entries.contains_key(*pairs[i].0));
            }
            infos.push(GatewayInfo::from_entry(pair.1, self.region.as_str(), now));
            proof {
                order = order.push(*pair.0);
            }
        }
        proof {
            let table = self.entries@;
            assert forall|i: int, j: int| 0 <= i < j < order.len() implies order[i]
                != order[j] by {
                assert(table[*pairs[i].0] == *pairs[i].1);
                assert(table[*pairs[j].0] == *pairs[j].1);
                assert(pairs[i] != pairs[j]);
            }
            assert forall|k: u64| #[trigger] order.to_set().contains(k) <==> table.contains_key(
                k,
            ) by {
                if table.contains_key(k) {
                    assert(pairs.contains((&k, &table[k])));
                    let i = choose|i: int| 0 <= i < pairs.len() && pairs[i] == (&k, &table[k]);
                    assert(order[i] == k);
                } else if order.contains(k) {
                    let i = choose|i: int| 0 <= i < order.len() && order[i] == k;
                    assert(table.contains_key(*pairs[i].0));
                }
            }
            assert(order.to_set() =~= self@.entries.dom());
            assert forall|i: int| 0 <= i < infos@.len() implies #[trigger] info_views(infos@)[i]
                == info_of(self@.entries[order[i]], self@.region, now) by {
                assert(table[*pairs[i].0] == *pairs[i].1);
                assert(infos@[i]@ == info_of(pairs[i].1@, self@.region, now));
            }
            assert(lists_all(info_views(infos@), self@, now, order));
        }
        infos
    }

    /// Gets the information on a gateway.
    pub fn get_gateway(&self, mac: &MacAddress, now: u64) -> (info: Option<GatewayInfo>)
        requires
            self@.shows(mac@),
        ensures
            match info {
                Some(info) => {
                    &&& self@.knows(mac@)
                    &&& info@ == info_of(self@.entry(mac@), self@.region, now)
                },
                None => !self@.knows(mac@),
            },
    {
        match self.find(mac) {
            Some(entry) => Some(GatewayInfo::from_entry(entry, self.region.as_str(), now)),
            None => None,
        }
    }

    /// Signs data with the keypair of a gateway. `None` if the gateway is not in the table.
    pub fn sign(&self, mac: &MacAddress, data: &[u8]) -> (result: Result<
        Option<Vec<u8>>,
        KeypairError,
    >)
        ensures
            result is Ok,
            match result->Ok_0 {
                Some(signature) => {
                    &&& self@.knows(mac@)
                    &&& signature@.len() <= MAX_SIGNATURE_LEN
                    &&& is_paired(self@.entry(mac@).keypair.key) ==> signature_accepted(
                        self@.entry(mac@).keypair.key,
                        data@,
                        signature@,
                    )
                },
                None => !self@.knows(mac@),
            },
    {
        match self.find(mac) {
            Some(entry) => match entry.keypair().sign(data) {
                Ok(signature) => Ok(Some(signature)),
                Err(error) => Err(error),
            },
            None => Ok(None),
        }
    }

    /// Records the metadata of an uplink packet. The event is for those who follow the gateways,
    /// whether or not the gateway is in the table.
    pub fn record_uplink_metadata(
        &mut self,
        mac: MacAddress,
        metadata: PacketMetadata,
    ) -> (event: GatewayEvent)
        requires
            old(self)@.wf(),
        ensures
            final(self)@.wf(),
            final(self)@ == old(self)@.after(TableOp::RecordUplink { mac: mac@, metadata: metadata@ }),
            final(self)@ == old(self)@.changed(
                mac@,
                old(self)@.entry(mac@).record_uplink(metadata@),
            ),
            event@ == (EventView::Uplink {
                mac: hex_text(mac@),
                region: old(self)@.region,
                metadata: metadata@,
            }),
    {
        let event = GatewayEvent::Uplink {
            mac: mac_to_key_name(&mac),
            region: self.region.clone(),
            metadata: metadata.clone(),
        };
        if let Some(entry) = self.take_or_new(&mac, None) {
            let mut entry = entry;
            entry.record_uplink(metadata);
            self.put(entry);
            assert(self@ =~= old(self)@.with(mac@, entry@));
        }
        event
    }

    /// Records a downlink; its metadata joins the recent packets. The event is for those who
    /// follow the gateways, whether or not the gateway is in the table.
    pub fn record_downlink_event(
        &mut self,
        mac: MacAddress,
        metadata: PacketMetadata,
    ) -> (event: GatewayEvent)
        requires
            old(self)@.wf(),
        ensures
            final(self)@.wf(),
            final(self)@ == old(self)@.after(TableOp::RecordDownlink { mac: mac@, metadata: metadata@ }),
            final(self)@ == old(self)@.changed(
                mac@,
                old(self)@.entry(mac@).record_downlink().store_packet(metadata@),
            ),
            event@ == (EventView::Downlink {
                mac: hex_text(mac@),
                region: old(self)@.region,
                metadata: metadata@,
            }),
    {
        let event = GatewayEvent::Downlink {
            mac: mac_to_key_name(&mac),
            region: self.region.clone(),
            metadata: metadata.clone(),
        };
        if let Some(entry) = self.take_or_new(&mac, None) {
            let mut entry = entry;
            entry.record_downlink();
            entry.store_packet(metadata);
            self.put(entry);
            assert(self@ =~= old(self)@.with(mac@, entry@));
        }
        event
    }

    /// Gets the recent packets of a gateway, the oldest first.
    pub fn get_recent_packets(&self, mac: &MacAddress) -> (packets: Option<Vec<PacketMetadata>>)
        ensures
            match packets {
                Some(packets) => {
                    &&& self@.knows(mac@)
                    &&& packet_views(packets@) == self@.entry(mac@).recent_packets
                },
                None => !self@.knows(mac@),
            },
    {
        match self.find(mac) {
            Some(entry) => Some(entry.recent_packets()),
            None => None,
        }
    }

    /// Creates an add-gateway transaction for a gateway, still unsigned. `None` if the gateway is
    /// not in the table.
    pub fn create_add_gateway_txn(
        &self,
        mac: &MacAddress,
        owner: Vec<u8>,
        payer: Vec<u8>,
    ) -> (txn: Option<AddGatewayTxn>)
        requires
            self@.shows(mac@),
        ensures
            match txn {
                Some(txn) => {
                    &&& self@.knows(mac@)
                    &&& self@.entry(mac@).keypair.public_key == Some(txn.gateway@)
                    &&& txn.owner@ == owner@
                    &&& txn.payer@ == payer@
                    &&& txn.gateway_signature@ == Seq::<u8>::empty()
                },
                None => !self@.knows(mac@),
            },
    {
        match self.find(mac) {
            Some(entry) => Some(
                AddGatewayTxn {
                    gateway: entry.public_key().unwrap(),
                    owner,
                    payer,
                    gateway_signature: Vec::new(),
                },
            ),
            None => None,
        }
    }

    /// Signs an add-gateway transaction with the keypair of its gateway. What is signed is the
    /// encoded transaction without signature. `None` if the gateway is not in the table.
    pub fn sign_add_gateway_txn(
        &self,
        mac: &MacAddress,
        txn: AddGatewayTxn,
        unsigned_msg: &[u8],
    ) -> (result: Result<Option<AddGatewayTxn>, KeypairError>)
        ensures
            result is Ok,
            match result->Ok_0 {
                Some(signed) => {
                    &&& self@.knows(mac@)
                    &&& signed.gateway@ == txn.gateway@
                    &&& signed.owner@ == txn.owner@
                    &&& signed.payer@ == txn.payer@
                    &&& signed.gateway_signature@.len() <= MAX_SIGNATURE_LEN
                    &&& is_paired(self@.entry(mac@).keypair.key) ==> signature_accepted(
                        self@.entry(mac@).keypair.key,
                        unsigned_msg@,
                        signed.gateway_signature@,
                    )
                },
                None => !self@.knows(mac@),
            },
    {
        match self.sign(mac, unsigned_msg) {
            Ok(Some(gateway_signature)) => Ok(
                Some(
                    AddGatewayTxn {
                        gateway: txn.gateway,
                        owner: txn.owner,
                        payer: txn.payer,
                        gateway_signature,
                    },
                ),
            ),
            Ok(None) => Ok(None),
            Err(error) => Err(error),
        }
    }

    /// Updates the place of a gateway from the GPS data of a STAT packet: latitude and longitude
    /// are the bits of double-precision numbers.
    pub fn update_location(
        &mut self,
        mac: MacAddress,
        latitude: u64,
        longitude: u64,
        altitude: Option<i64>,
    )
        requires
            old(self)@.wf(),
        ensures
            final(self)@.wf(),
            final(self)@ == old(self)@.after(TableOp::Locate {
                mac: mac@,
                latitude,
                longitude,
                altitude,
            }),
            final(self)@ == old(self)@.changed(
                mac@,
                old(self)@.entry(mac@).locate(latitude, longitude, altitude),
            ),
    {
        if let Some(entry) = self.take_or_new(&mac, None) {
            let mut entry = entry;
            entry.locate(latitude, longitude, altitude);
            self.put(entry);
            assert(self@ =~= old(self)@.with(mac@, entry@));
        }
    }
}

impl AddGatewayResult {
    /// Puts together a signed transaction, its unsigned message and its encoding.
    pub fn new(txn: AddGatewayTxn, unsigned_msg: Vec<u8>, encoded: Vec<u8>) -> (result:
        AddGatewayResult)
        ensures
            result.encoded@ == encoded@,
            result.unsigned_msg@ == unsigned_msg@,
            result.signature@ == txn.gateway_signature@,
    {
        AddGatewayResult { encoded, unsigned_msg, signature: txn.gateway_signature }
    }
}

/// After an uplink packet its gateway is connected, whatever state it was in, and the packet is
/// delivered exactly if the gateway had a live connection or is new.
pub proof fn law_uplink_leaves_its_gateway_connected(
    table: TableView,
    mac: Seq<u8>,
    provisioned: Option<KeypairView>,
    now: u64,
    task_finished: bool,
)
    requires
        table.wf(),
        table.found_or_fresh(mac, provisioned) is Some,
    ensures
        table.uplink(mac, provisioned, now, task_finished) matches Some((entry, order, deliver))
            && {
            &&& entry.connected
            &&& entry.last_uplink == Some(now)
            &&& deliver <==> !table.knows(mac) || (table.entry(mac).connected && !task_finished)
            &&& order.start is Some <==> !deliver || !table.knows(mac)
        },
{
}

/// A gateway that is in the table stays in it and keeps the keypair that it was entered with,
/// whatever is done with the table after that, and whatever keypairs are at hand then.
pub proof fn law_gateway_keeps_its_keypair(table: TableView, mac: Seq<u8>, ops: Seq<TableOp>)
    requires
        table.knows(mac),
    ensures
        table.after_all(ops).knows(mac),
        table.after_all(ops).entry(mac).keypair == table.entry(mac).keypair,
    decreases ops.len(),
{
    if ops.len() > 0 {
        law_gateway_keeps_its_keypair(table, mac, ops.drop_last());
    }
}

/// A gateway that is not in the table is entered with the keypair at hand, by whatever enters it.
pub proof fn law_new_gateway_gets_the_keypair_at_hand(
    table: TableView,
    mac: Seq<u8>,
    keypair: KeypairView,
    now: u64,
    task_finished: bool,
)
    requires
        !table.knows(mac),
    ensures
        forall|op: TableOp|
            op == (TableOp::Connect { mac, provisioned: Some(keypair), now }) || op
                == (TableOp::Uplink { mac, provisioned: Some(keypair), now, task_finished }) || op
                == (TableOp::PublicKey { mac, provisioned: Some(keypair) }) ==> {
                &&& (#[trigger] table.after(op)).knows(mac)
                &&& table.after(op).entry(mac).keypair == keypair
            },
{
}

/// What is done with one gateway leaves every other one as it is, whichever operation it is.
pub proof fn law_operations_touch_one_gateway(table: TableView, op: TableOp, other: Seq<u8>)
    requires
        op.mac().len() == 8,
        other.len() == 8,
        op.mac() != other,
    ensures
        table.after(op).knows(other) == table.knows(other),
        table.knows(other) ==> table.after(op).entry(other) == table.entry(other),
{
    if mac_key(op.mac()) == mac_key(other) {
        law_mac_keys_are_unique(op.mac(), other);
    }
}

/// A keypair that was loaded under the name of a gateway is the gateway's keypair, if no later one
/// has the same MAC address for a name.
pub proof fn law_loaded_keypair_is_the_gateways(
    keypairs: Seq<(Seq<char>, KeypairView)>,
    i: int,
)
    requires
        0 <= i < keypairs.len(),
        is_mac_text(keypairs[i].0),
        forall|j: int|
            i < j < keypairs.len() && is_mac_text(#[trigger] keypairs[j].0) ==> mac_of_text(
                keypairs[j].0,
            ) != mac_of_text(keypairs[i].0),
    ensures
        ({
            let mac = mac_of_text(keypairs[i].0);
            &&& named_entries(keypairs).contains_key(mac_key(mac))
            &&& named_entries(keypairs)[mac_key(mac)] == EntryView::fresh(mac, keypairs[i].1)
        }),
    decreases keypairs.len(),
{
    if i < keypairs.len() - 1 {
        let last = keypairs.last().0;
        law_loaded_keypair_is_the_gateways(keypairs.drop_last(), i);
        if is_mac_text(last) && mac_key(mac_of_text(last)) == mac_key(mac_of_text(keypairs[i].0)) {
            law_mac_keys_are_unique(mac_of_text(last), mac_of_text(keypairs[i].0));
            assert(keypairs[keypairs.len() - 1].0 == last);
        }
    }
}

/// The table knows exactly the gateways whose MAC addresses were names of loaded keypairs.
pub proof fn law_only_loaded_gateways_are_known(
    keypairs: Seq<(Seq<char>, KeypairView)>,
    mac: Seq<u8>,
)
    requires
        mac.len() == 8,
    ensures
        named_entries(keypairs).contains_key(mac_key(mac)) <==> exists|i: int|
            0 <= i < keypairs.len() && is_mac_text(#[trigger] keypairs[i].0) && mac_of_text(
                keypairs[i].0,
            ) == mac,
    decreases keypairs.len(),
{
    if keypairs.len() > 0 {
        let rest = keypairs.drop_last();
        let last = keypairs.last().0;
        law_only_loaded_gateways_are_known(rest, mac);
        if is_mac_text(last) && mac_key(mac_of_text(last)) == mac_key(mac) {
            law_mac_keys_are_unique(mac_of_text(last), mac);
            assert(is_mac_text(keypairs[keypairs.len() - 1].0));
        }
        if named_entries(rest).contains_key(mac_key(mac)) {
            let i = choose|i: int|
                0 <= i < rest.len() && is_mac_text(#[trigger] rest[i].0) && mac_of_text(rest[i].0)
                    == mac;
            assert(is_mac_text(keypairs[i].0));
        }
        if exists|i: int|
            0 <= i < keypairs.len() && is_mac_text(#[trigger] keypairs[i].0) && mac_of_text(
                keypairs[i].0,
            ) == mac {
            let i = choose|i: int|
                0 <= i < keypairs.len() && is_mac_text(#[trigger] keypairs[i].0) && mac_of_text(
                    keypairs[i].0,
                ) == mac;
            if i < rest.len() {
                assert(is_mac_text(rest[i].0));
            }
        }
    }
}

/// A gateway stands in the table under the number of its MAC address. Entering it changes what
/// stands under that number, and neither another gateway nor the settings of the table; a change to
/// a gateway that is not in the table changes nothing.
pub proof fn law_table_keeps_gateways_by_number(
    table: TableView,
    mac: Seq<u8>,
    entry: EntryView,
    number: u64,
)
    ensures
        table.knows(mac) <==> table.entries.contains_key(mac_key(mac)),
        table.entry(mac) == table.entries[mac_key(mac)],
        ({
            let after = table.with(mac, entry);
            &&& after.entries.contains_key(mac_key(mac))
            &&& after.entries[mac_key(mac)] == entry
            &&& number != mac_key(mac) ==> {
                &&& after.entries.contains_key(number) == table.entries.contains_key(number)
                &&& after.entries[number] == table.entries[number]
            }
            &&& after.keys_dir == table.keys_dir
            &&& after.router_uri == table.router_uri
            &&& after.queue_size == table.queue_size
            &&& after.region == table.region
        }),
        table.entries.contains_key(mac_key(mac)) ==> table.changed(mac, entry) == table.with(
            mac,
            entry,
        ),
        !table.entries.contains_key(mac_key(mac)) ==> table.changed(mac, entry) == table,
{
}

/// A gateway can be shown if it is not in the table or its public key has both its forms, and all
/// gateways can be shown if each of them can.
pub proof fn law_what_gateways_can_be_shown(table: TableView, mac: Seq<u8>)
    ensures
        table.shows(mac) <==> (table.entries.contains_key(mac_key(mac)) ==> {
            &&& table.entries[mac_key(mac)].keypair.public_key is Some
            &&& table.entries[mac_key(mac)].keypair.address is Some
        }),
        table.shows_all() <==> forall|k: u64| #[trigger]
            table.entries.contains_key(k) ==> {
                &&& table.entries[k].keypair.public_key is Some
                &&& table.entries[k].keypair.address is Some
            },
        table.shows_all() ==> table.shows(mac),
{
}

/// A gateway of the table is found as it is, whatever keypair is at hand. One that is not is new,
/// with the keypair at hand, and there is none without.
pub proof fn law_gateways_are_found_or_new(
    table: TableView,
    mac: Seq<u8>,
    provisioned: Option<KeypairView>,
)
    ensures
        table.entries.contains_key(mac_key(mac)) ==> table.found_or_fresh(mac, provisioned) == Some(
            table.entries[mac_key(mac)],
        ),
        !table.entries.contains_key(mac_key(mac)) ==> match provisioned {
            Some(keypair) => {
                &&& table.found_or_fresh(mac, provisioned) matches Some(entry)
                &&& entry.mac == mac
                &&& entry.keypair == keypair
                &&& !entry.connected
                &&& entry.uplink_count == 0
                &&& entry.downlink_count == 0
                &&& entry.recent_packets.len() == 0
                &&& entry.last_uplink is None
            },
            None => table.found_or_fresh(mac, provisioned) is None,
        },
{
}

/// Connecting a gateway starts a router task with the gateway's MAC address and keypair and the
/// table's router and queue size, and aborts the task of a connection that there was.
pub proof fn law_connecting_starts_the_gateways_task(table: TableView, entry: EntryView)
    requires
        entry.wf(),
    ensures
        table.connect_order(entry).abort <==> entry.connected,
        table.connect_order(entry).start matches Some(task) && {
            &&& task.mac == entry.mac
            &&& task.keypair == entry.keypair
            &&& task.router_uri == table.router_uri
            &&& task.queue_size == table.queue_size
        },
{
}

/// An uplink of a gateway with a live connection changes nothing but the time of its last uplink.
/// One of any other gateway in the table makes a new connection. A new gateway is entered with one.
/// The new connection has a task to start, and never one to abort.
pub proof fn law_uplink_changes_the_connection_only_if_it_must(
    table: TableView,
    mac: Seq<u8>,
    provisioned: Option<KeypairView>,
    now: u64,
    task_finished: bool,
)
    requires
        table.wf(),
        table.found_or_fresh(mac, provisioned) is Some,
    ensures
        table.uplink(mac, provisioned, now, task_finished) matches Some((entry, order, deliver))
            && {
            let before = table.found_or_fresh(mac, provisioned)->0;
            let live = table.entries.contains_key(mac_key(mac)) && before.connected
                && !task_finished;
            &&& same_but_for_connection(entry, before)
            &&& entry.last_uplink == Some(now)
            &&& entry.connected && entry.uplink_tx && entry.task_handle
            &&& entry.connected_since == (if live {
                before.connected_since
            } else {
                Some(now)
            })
            &&& !order.abort
            &&& live ==> order.start is None
            &&& !live ==> order.start == Some(
                TaskView {
                    mac: before.mac,
                    keypair: before.keypair,
                    router_uri: table.router_uri,
                    queue_size: table.queue_size,
                },
            )
            &&& deliver <==> live || !table.entries.contains_key(mac_key(mac))
        },
{
}

/// A list of all gateways has exactly one line for each gateway of the table, and that line is the
/// gateway's status; no two lines are of the same MAC address.
pub proof fn law_list_has_each_gateway_once(
    infos: Seq<InfoView>,
    table: TableView,
    now: u64,
    order: Seq<u64>,
)
    requires
        table.wf(),
        lists_all(infos, table, now, order),
    ensures
        infos.len() == table.entries.dom().len(),
        forall|k: u64| #[trigger]
            table.entries.contains_key(k) ==> infos.contains(
                info_of(table.entries[k], table.region, now),
            ),
        forall|i: int|
            0 <= i < infos.len() ==> table.entries.contains_key(order[i]) && #[trigger] infos[i]
                == info_of(table.entries[order[i]], table.region, now),
        forall|i: int, j: int|
            0 <= i < j < infos.len() ==> (#[trigger] infos[i]).mac != (#[trigger] infos[j]).mac,
{
    order.unique_seq_to_set();
    assert forall|k: u64| #[trigger] table.entries.contains_key(k) implies infos.contains(
        info_of(table.entries[k], table.region, now),
    ) by {
        assert(order.to_set().contains(k));
        let i = choose|i: int| 0 <= i < order.len() && order[i] == k;
        assert(infos[i] == info_of(table.entries[k], table.region, now));
    }
    assert forall|i: int| 0 <= i < infos.len() implies table.entries.contains_key(order[i])
        && #[trigger] infos[i] == info_of(table.entries[order[i]], table.region, now) by {
        assert(order.to_set().contains(order[i]));
    }
    assert forall|i: int, j: int| 0 <= i < j < infos.len() implies (#[trigger] infos[i]).mac != (
    #[trigger] infos[j]).mac by {
        assert(order.to_set().contains(order[i]));
        assert(order.to_set().contains(order[j]));
        assert(table.entries.contains_key(order[i]));
        assert(table.entries.contains_key(order[j]));
        let a = table.entries[order[i]].mac;
        let b = table.entries[order[j]].mac;
        if hex_text(a) == hex_text(b) {
            law_key_names_are_unique(a, b);
        }
    }
}

/// What is said of a task, of an order and of lists of them is said of their fields.
pub proof fn law_orders_are_their_fields(
    task: RouterTask,
    abort: bool,
    keypair: GatewayKeypair,
    infos: Seq<GatewayInfo>,
)
    ensures
        task@.mac == task.mac@,
        task@.keypair == task.keypair@,
        task@.router_uri == task.router_uri@,
        task@.queue_size == task.queue_size,
        (TaskOrder { abort, start: Some(task) })@.abort == abort,
        (TaskOrder { abort, start: Some(task) })@.start == Some(task@),
        (TaskOrder { abort, start: None })@.abort == abort,
        (TaskOrder { abort, start: None })@.start is None,
        keypair_view(Some(keypair)) == Some(keypair@),
        keypair_view(None) is None,
        info_views(infos).len() == infos.len(),
        forall|i: int| 0 <= i < infos.len() ==> #[trigger] info_views(infos)[i] == infos[i]@,
{
}

} // verus!
