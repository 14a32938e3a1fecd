use vstd::prelude::*;

use crate::text::{all_digits, decimal, digits_value, law_decimal_reads_back, push_decimal};
use vstd::arithmetic::div_mod::lemma_add_mod_noop;

verus! {

/// The latest reading of one connected controller.
pub struct ControllerStatus {
    pub name: String,
    pub battery_percent: u8,
    pub is_charging: bool,
    pub is_fully_charged: bool,
    pub is_bluetooth: bool,
    pub path: String,
    pub last_read_failed: bool,
    pub unexpected_battery_data: bool,
}

impl Clone for ControllerStatus {
    fn clone(&self) -> (copy: Self)
        ensures
            copy == *self,
    {
        ControllerStatus {
            name: self.name.clone(),
            battery_percent: self.battery_percent,
            is_charging: self.is_charging,
            is_fully_charged: self.is_fully_charged,
            is_bluetooth: self.is_bluetooth,
            path: self.path.clone(),
            last_read_failed: self.last_read_failed,
            unexpected_battery_data: self.unexpected_battery_data,
        }
    }
}

/// A copy of every status in `statuses`, in the same order.
pub fn clone_statuses(statuses: &[ControllerStatus]) -> (copies: Vec<ControllerStatus>)
    ensures
        copies@ == statuses@,
{
    let mut copies: Vec<ControllerStatus> = Vec::new();
    let n = statuses.len();
    let mut i: usize = 0;
    while i < n
        invariant
            n == statuses@.len(),
            i <= n,
            copies@ == statuses@.take(i as int),
        decreases n - i,
    {
        copies.push(statuses[i].clone());
        assert(statuses@.take(i + 1) == statuses@.take(i as int).push(statuses@[i as int]));
        i = i + 1;
    }
    assert(statuses@.take(n as int) == statuses@);
    copies
}

/// The percentage shown for a controller: a full battery always reads 100.
pub open spec fn shown_percent(status: ControllerStatus) -> u8 {
    if status.is_fully_charged {
        100
    } else {
        status.battery_percent
    }
}

/// The text of a controller's line in the tray menu and in alerts.
pub open spec fn status_text(status: ControllerStatus) -> Seq<char> {
    status.name@ + " ["@ + (if status.is_bluetooth {
        "Bluetooth"@
    } else {
        "USB"@
    }) + "] — "@ + decimal(shown_percent(status) as nat) + "% — "@ + (if status.is_fully_charged {
        "Fully charged"@
    } else if status.is_charging {
        "Charging"@
    } else {
        "Not Charging"@
    })
}

/// One line describing a controller, such as
/// `DualSense Wireless Controller [Bluetooth] — 50% — Not Charging`.
pub fn controller_status_to_string(status: &ControllerStatus) -> (text: String)
    ensures
        text@ == status_text(*status),
{
    let mut text = status.name.clone();
    text.append(" [");
    if status.is_bluetooth {
        text.append("Bluetooth");
    } else {
        text.append("USB");
    }
    text.append("] — ");
    let percent: u8 = if status.is_fully_charged {
        100
    } else {
        status.battery_percent
    };
    push_decimal(&mut text, percent as u64);
    text.append("% — ");
    if status.is_fully_charged {
        text.append("Fully charged");
    } else if status.is_charging {
        text.append("Charging");
    } else {
        text.append("Not Charging");
    }
    text
}

/// The generation that follows `generation`; it wraps around as the atomic
/// counter it models does.
pub open spec fn next_generation(generation: u64) -> u64 {
    if generation == u64::MAX {
        0
    } else {
        (generation + 1) as u64
    }
}

/// The readings of the last completed poll, together with a generation
/// counter that every poll bumps, so readers can cheaply tell whether a poll
/// has completed since they last looked.
pub struct ControllerStore {
    controllers: Vec<ControllerStatus>,
    generation: u64,
}

impl ControllerStore {
    /// The statuses the store holds.
    pub closed spec fn stored(&self) -> Seq<ControllerStatus> {
        self.controllers@
    }

    /// The number of polls stored so far, modulo 2^64.
    pub closed spec fn generation(&self) -> u64 {
        self.generation
    }

    /// An empty store at generation 0.
    pub fn new() -> (store: Self)
        ensures
            store.stored() == Seq::<ControllerStatus>::empty(),
            store.generation() == 0,
    {
        ControllerStore { controllers: Vec::new(), generation: 0 }
    }

    /// Replaces the stored statuses and moves to the next generation.
    pub fn set_controllers(&mut self, status: Vec<ControllerStatus>)
        ensures
            final(self).stored() == status@,
            final(self).generation() == next_generation(old(self).generation()),
    {
        self.controllers = status;
        self.generation = if self.generation == u64::MAX {
            0
        } else {
            self.generation + 1
        };
    }

    /// A copy of the stored statuses.
    pub fn get_controllers(&self) -> (controllers: Vec<ControllerStatus>)
        ensures
            controllers@ == self.stored(),
    {
        clone_statuses(self.controllers.as_slice())
    }

    /// The current generation.
    pub fn get_generation(&self) -> (generation: u64)
        ensures
            generation == self.generation(),
    {
        self.generation
    }
}

/// Every store moves the generation on, so a reader that remembers the
/// generation it last saw notices every completed poll (as long as fewer than
/// 2^64 polls pass between two looks).
pub proof fn law_every_store_changes_the_generation(generation: u64)
    ensures
        next_generation(generation) != generation,
{
}

/// The number of generations: the counter wraps around after 2^64 stores.
pub open spec fn generation_modulus() -> int {
    0x1_0000_0000_0000_0000
}

/// The generation `n` stores after `generation`.
pub open spec fn generation_after(generation: u64, n: nat) -> u64
    decreases n,
{
    if n == 0 {
        generation
    } else {
        next_generation(generation_after(generation, (n - 1) as nat))
    }
}

/// `n` stores add `n` to the generation, modulo 2^64.
pub proof fn lemma_generation_after(generation: u64, n: nat)
    ensures
        generation_after(generation, n) as int == (generation + n) % generation_modulus(),
    decreases n,
{
    if n > 0 {
        lemma_generation_after(generation, (n - 1) as nat);
        let m = generation_modulus();
        let before = generation_after(generation, (n - 1) as nat);
        lemma_add_mod_noop(generation + n - 1, 1, m);
        assert(((generation + n - 1) % m + 1int % m) % m == (generation + n) % m);
        assert(1int % m == 1);
        if before as int == m - 1 {
            assert((m - 1 + 1) % m == 0) by {
                assert(m % m == 0);
            }
        } else {
            assert((before as int + 1) % m == before as int + 1);
        }
    }
}

/// The generation counts the stores: starting from a new store (generation
/// 0), the store after `i` calls of `set_controllers` is at generation
/// `i mod 2^64`. While fewer than 2^64 stores have happened, generations
/// never decrease, and two readings differ exactly when a store completed
/// between them.
pub proof fn law_generation_counts_stores(stores: Seq<ControllerStore>)
    requires
        stores.len() > 0,
        stores[0].generation() == 0,
        forall|i: int|
            1 <= i < stores.len() ==> #[trigger] stores[i].generation() == next_generation(
                stores[i - 1].generation(),
            ),
    ensures
        forall|i: int| 0 <= i < stores.len() ==> #[trigger] stores[i].generation() as int == i % generation_modulus(),
        stores.len() <= generation_modulus() ==> forall|i: int, j: int|
            0 <= i <= j < stores.len() ==> {
                &&& stores[i].generation() <= stores[j].generation()
                &&& (stores[i].generation() == stores[j].generation() <==> i == j)
            },
    decreases stores.len(),
{
    if stores.len() > 1 {
        let shorter = stores.drop_last();
        assert forall|i: int| 1 <= i < shorter.len() implies #[trigger] shorter[i].generation()
            == next_generation(shorter[i - 1].generation()) by {
            assert(shorter[i] == stores[i]);
            assert(shorter[i - 1] == stores[i - 1]);
        }
        law_generation_counts_stores(shorter);
        let last = stores.len() - 1;
        assert(stores[last].generation() == next_generation(stores[last - 1].generation()));
        assert(shorter[last - 1] == stores[last - 1]);
        lemma_generation_after(stores[last - 1].generation(), 1);
        assert(generation_after(stores[last - 1].generation(), 1) == next_generation(
            generation_after(stores[last - 1].generation(), 0),
        ));
        lemma_add_mod_noop(last - 1, 1, generation_modulus());
        assert forall|i: int| 0 <= i < stores.len() implies #[trigger] stores[i].generation() as int
            == i % generation_modulus() by {
            if i < last {
                assert(shorter[i] == stores[i]);
            }
        }
    }
    assert forall|i: int| 0 <= i < stores.len() implies #[trigger] stores[i].generation() as int
        == i % generation_modulus() by {
        if stores.len() <= 1 {
        }
    }
}

/// Whether `text` ends with `suffix`.
pub open spec fn ends_with(text: Seq<char>, suffix: Seq<char>) -> bool {
    suffix.len() <= text.len() && text.skip(text.len() - suffix.len()) == suffix
}

/// Whether `text` starts with `prefix`.
pub open spec fn starts_with(text: Seq<char>, prefix: Seq<char>) -> bool {
    prefix.len() <= text.len() && text.take(prefix.len() as int) == prefix
}

/// A status line is the controller's name, its transport in brackets, its
/// percentage (100 when full) and its charge state, in that order:
/// `name [Bluetooth|USB] — N% — Fully charged|Charging|Not Charging`, where
/// the digits of N read back as the shown percentage. The state word
/// depends only on the charge flags: full wins, then charging, whatever the
/// transport.
pub proof fn law_status_line(status: ControllerStatus)
    ensures
        exists|digits: Seq<char>|
            all_digits(digits) && digits_value(digits) == (if status.is_fully_charged {
                100
            } else {
                status.battery_percent as int
            }) && #[trigger] status_text(status) == status.name@ + " ["@ + (if status.is_bluetooth {
                "Bluetooth"@
            } else {
                "USB"@
            }) + "] — "@ + digits + "% — "@ + (if status.is_fully_charged {
                "Fully charged"@
            } else if status.is_charging {
                "Charging"@
            } else {
                "Not Charging"@
            }),
        starts_with(
            status_text(status),
            status.name@ + " ["@ + (if status.is_bluetooth {
                "Bluetooth"@
            } else {
                "USB"@
            }) + "] — "@,
        ),
        status.is_fully_charged ==> ends_with(status_text(status), "% — "@ + "Fully charged"@),
        !status.is_fully_charged && status.is_charging ==> ends_with(
            status_text(status),
            "% — "@ + "Charging"@,
        ),
        !status.is_fully_charged && !status.is_charging ==> ends_with(
            status_text(status),
            "% — "@ + "Not Charging"@,
        ),
{
    let shown: nat = if status.is_fully_charged {
        100
    } else {
        status.battery_percent as nat
    };
    law_decimal_reads_back(shown);
    let head = status.name@ + " ["@ + (if status.is_bluetooth {
        "Bluetooth"@
    } else {
        "USB"@
    }) + "] — "@;
    let word = if status.is_fully_charged {
        "Fully charged"@
    } else if status.is_charging { "Charging"@ } else { "Not Charging"@ };
    let line = status_text(status);
    assert(line =~= head + decimal(shown) + "% — "@ + word);
    assert(line.take(head.len() as int) =~= head);
    let tail = "% — "@ + word;
    assert(line.skip(line.len() - tail.len()) =~= tail);
}

/// The charge state shown does not depend on the transport: two statuses
/// that differ only in `is_bluetooth` have lines that agree from the
/// percentage on.
pub proof fn law_state_word_ignores_the_transport(status: ControllerStatus)
    ensures
        ({
            let other = ControllerStatus { is_bluetooth: !status.is_bluetooth, ..status };
            let tail = decimal((if status.is_fully_charged {
                100
            } else {
                status.battery_percent as int
            }) as nat) + "% — "@ + (if status.is_fully_charged {
                "Fully charged"@
            } else if status.is_charging {
                "Charging"@
            } else {
                "Not Charging"@
            });
            &&& ends_with(status_text(status), tail)
            &&& ends_with(status_text(other), tail)
        }),
{
    let other = ControllerStatus { is_bluetooth: !status.is_bluetooth, ..status };
    let tail = decimal((if status.is_fully_charged {
        100
    } else {
        status.battery_percent as int
    }) as nat) + "% — "@ + (if status.is_fully_charged {
        "Fully charged"@
    } else if status.is_charging { "Charging"@ } else { "Not Charging"@ });
    let l1 = status_text(status);
    let l2 = status_text(other);
    let h1 = status.name@ + " ["@ + (if status.is_bluetooth { "Bluetooth"@ } else { "USB"@ }) + "] — "@;
    let h2 = other.name@ + " ["@ + (if other.is_bluetooth { "Bluetooth"@ } else { "USB"@ }) + "] — "@;
    assert(l1 =~= h1 + tail);
    assert(l2 =~= h2 + tail);
    assert(l1.skip(l1.len() - tail.len()) =~= tail);
    assert(l2.skip(l2.len() - tail.len()) =~= tail);
}

} // verus!
