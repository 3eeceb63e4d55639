//! Which devices are due for re-evaluation in a heartbeat cycle.
use vstd::prelude::*;
use crate::hwaddr::HwAddr;
use crate::status::{ReportedState, WorkerStatus};

verus! {

/// Seconds after which an active device that stopped reporting is overdue.
pub const STALE_WINDOW_SECS: i64 = 600;

/// Row `i` is the latest report of its device among the first `n` rows: no
/// row of the same device is newer, and later rows of it are strictly older.
pub open spec fn is_latest_in(rows: Seq<ReportedState>, n: int, i: int) -> bool {
    &&& 0 <= i < n <= rows.len()
    &&& forall|j: int|
        0 <= j < n && rows[j].mac == rows[i].mac ==> rows[j].observed_at <= rows[i].observed_at
    &&& forall|j: int|
        i < j < n && rows[j].mac == rows[i].mac ==> rows[j].observed_at < rows[i].observed_at
}

/// No two entries name the same device.
pub open spec fn unique_macs(s: Seq<ReportedState>) -> bool {
    forall|a: int, b: int| 0 <= a < b < s.len() ==> s[a].mac != s[b].mac
}

/// `latest` holds the latest report of each device of `rows`, once each.
pub open spec fn latest_reports(rows: Seq<ReportedState>, latest: Seq<ReportedState>) -> bool {
    &&& unique_macs(latest)
    &&& forall|k: int| 0 <= k < latest.len() ==> #[trigger] is_latest_report(rows, latest[k])
    &&& forall|i: int| 0 <= i < rows.len() ==> #[trigger] has_mac(latest, rows[i].mac)
}

/// `r` is the latest row of its device in `rows`.
pub open spec fn is_latest_report(rows: Seq<ReportedState>, r: ReportedState) -> bool {
    exists|i: int| is_latest_in(rows, rows.len() as int, i) && r == #[trigger] rows[i]
}

/// Some entry of `s` names device `m`.
pub open spec fn has_mac(s: Seq<ReportedState>, m: HwAddr) -> bool {
    exists|k: int| 0 <= k < s.len() && #[trigger] s[k].mac == m
}

/// Whether a device with this latest report needs action now: an active device
/// whose report is older than the window, or an inactive one that asks to be woken.
pub open spec fn is_selected(r: ReportedState, now: i64, window: i64) -> bool {
    if r.status.is_active() {
        now as int - r.observed_at as int > window as int
    } else {
        r.wake
    }
}

/// The selected devices of a sequence of latest reports, in order, each with
/// its wake flag.
pub open spec fn selection(s: Seq<ReportedState>, now: i64, window: i64) -> Seq<(HwAddr, bool)>
    decreases s.len(),
{
    if s.len() == 0 {
        Seq::empty()
    } else {
        let rest = selection(s.drop_last(), now, window);
        let r = s.last();
        if is_selected(r, now, window) {
            rest.push((r.mac, r.wake))
        } else {
            rest
        }
    }
}

/// The latest report of each device, one entry per device, in order of each
/// device's first row; of rows with equal times the later one counts.
pub fn latest_states(rows: &Vec<ReportedState>) -> (r: Vec<ReportedState>)
    ensures
        latest_reports(rows@, r@),
{
    let mut out: Vec<ReportedState> = Vec::new();
    let ghost mut idx: Seq<int> = Seq::empty();
    let mut i: usize = 0;
    while i < rows.len()
        invariant
            i <= rows.len(),
            idx.len() == out.len(),
            unique_macs(out@),
            forall|k: int|
                0 <= k < out.len() ==> is_latest_in(rows@, i as int, #[trigger] idx[k]) && out@[k]
                    == rows@[idx[k]],
            forall|j: int| 0 <= j < i ==> #[trigger] has_mac(out@, rows@[j].mac),
        decreases rows.len() - i,
    {
        let row = rows[i];
        let mut k: usize = 0;
        let mut found = false;
        while k < out.len()
            invariant
                k <= out.len(),
                !found ==> forall|q: int| 0 <= q < k ==> out@[q].mac != row.mac,
                found ==> k < out.len() && out@[k as int].mac == row.mac,
            ensures
                !found ==> forall|q: int| 0 <= q < out.len() ==> out@[q].mac != row.mac,
                found ==> k < out.len() && out@[k as int].mac == row.mac,
            decreases out.len() - k + (if found { 0int } else { 1int }),
        {
            if out[k].mac.same(&row.mac) {
                found = true;
                break;
            }
            k = k + 1;
        }
        let ghost old_out = out@;
        let ghost old_idx = idx;
        if found {
            let ghost p = old_idx[k as int];
            assert(rows@[p].mac == row.mac);
            if row.observed_at >= out[k].observed_at {
                out.set(k, row);
                proof {
                    idx = idx.update(k as int, i as int);
                    assert forall|j: int| 0 <= j < i + 1 && rows@[j].mac == rows@[i as int].mac
                        implies rows@[j].observed_at <= rows@[i as int].observed_at by {
                        if j < i {
                            assert(rows@[j].observed_at <= rows@[p].observed_at);
                        }
                    }
                }
            } else {
                proof {
                    assert forall|j: int| 0 <= j < i + 1 && rows@[j].mac == rows@[p].mac
                        implies rows@[j].observed_at <= rows@[p].observed_at by {
                    }
                }
            }
            assert(is_latest_in(rows@, i + 1, idx[k as int]));
        } else {
            out.push(row);
            proof {
                idx = idx.push(i as int);
                assert forall|j: int| 0 <= j < i && rows@[j].mac == row.mac implies false by {
                    assert(has_mac(old_out, rows@[j].mac));
                    let q = choose|q: int| 0 <= q < old_out.len() && #[trigger] old_out[q].mac
                        == rows@[j].mac;
                    assert(old_out[q].mac != row.mac);
                }
            }
            assert(out@[out.len() - 1] == rows@[i as int]);
            assert(is_latest_in(rows@, i + 1, i as int));
        }
        assert forall|q: int| 0 <= q < out.len() implies is_latest_in(rows@, i + 1, #[trigger] idx[q])
            && out@[q] == rows@[idx[q]] by {
            if q != k && q < old_out.len() {
                if found {
                    assert(old_out[q].mac != old_out[k as int].mac);
                }
                assert(out@[q] == old_out[q]);
                assert(idx[q] == old_idx[q]);
                assert(rows@[old_idx[q]].mac != row.mac);
                assert(is_latest_in(rows@, i as int, old_idx[q]));
            }
        }
        assert(unique_macs(out@)) by {
            assert forall|a: int, b: int| 0 <= a < b < out.len() implies out@[a].mac != out@[b].mac by {
                if found {
                    assert(old_out[a].mac != old_out[b].mac);
                    assert(out@[a].mac == old_out[a].mac);
                    assert(out@[b].mac == old_out[b].mac);
                } else if b < old_out.len() {
                    assert(old_out[a].mac != old_out[b].mac);
                } else {
                    assert(old_out[a].mac != row.mac);
                }
            }
        }
        assert forall|j: int| 0 <= j < i + 1 implies #[trigger] has_mac(out@, rows@[j].mac) by {
            if j == i {
                if found {
                    assert(out@[k as int].mac == rows@[j].mac);
                } else {
                    assert(out@[out.len() - 1].mac == rows@[j].mac);
                }
            } else {
                assert(has_mac(old_out, rows@[j].mac));
                let q0 = choose|q: int| 0 <= q < old_out.len() && #[trigger] old_out[q].mac
                    == rows@[j].mac;
                assert(out@[q0].mac == rows@[j].mac);
            }
        }
        i = i + 1;
    }
    assert forall|k: int| 0 <= k < out.len() implies #[trigger] is_latest_report(rows@, out@[k]) by {
        assert(is_latest_in(rows@, rows.len() as int, idx[k]));
        assert(out@[k] == rows@[idx[k]]);
    }
    out
}

/// Whether a device with latest report `r` is due at time `now`.
pub fn is_due(r: &ReportedState, now: i64, window: i64) -> (b: bool)
    ensures
        b == is_selected(*r, now, window),
{
    if r.status.active() {
        (now as i128) - (r.observed_at as i128) > window as i128
    } else {
        r.wake
    }
}

/// The devices among the latest reports that need action now, each with its
/// wake flag, in the order of the reports.
pub fn select_stale(latest: &Vec<ReportedState>, now: i64, window: i64) -> (r: Vec<(HwAddr, bool)>)
    ensures
        r@ == selection(latest@, now, window),
{
    let mut out: Vec<(HwAddr, bool)> = Vec::new();
    let mut i: usize = 0;
    while i < latest.len()
        invariant
            i <= latest.len(),
            out@ == selection(latest@.subrange(0, i as int), now, window),
        decreases latest.len() - i,
    {
        let r = latest[i];
        proof {
            assert(latest@.subrange(0, i + 1).drop_last() =~= latest@.subrange(0, i as int));
        }
        if is_due(&r, now, window) {
            out.push((r.mac, r.wake));
        }
        i = i + 1;
    }
    assert(latest@.subrange(0, latest.len() as int) =~= latest@);
    out
}

/// The devices due at time `now` with their wake flags, judged on the latest
/// report of each device among the rows, one entry per device.
pub fn stale_macs(rows: &Vec<ReportedState>, now: i64, window: i64) -> (r: Vec<(HwAddr, bool)>)
    ensures
        exists|latest: Seq<ReportedState>|
            latest_reports(rows@, latest) && r@ == #[trigger] selection(latest, now, window),
        forall|a: int, b: int| 0 <= a < b < r.len() ==> r@[a].0 != r@[b].0,
{
    let latest = latest_states(rows);
    let r = select_stale(&latest, now, window);
    proof {
        lemma_selection_unique(latest@, now, window);
    }
    assert(latest_reports(rows@, latest@) && r@ == selection(latest@, now, window));
    r
}

/// Membership in a selection: a device and flag are there exactly when some
/// report of the sequence is selected and carries them.
pub proof fn lemma_selection_members(s: Seq<ReportedState>, now: i64, window: i64, m: HwAddr, w: bool)
    ensures
        selection(s, now, window).contains((m, w)) <==> exists|i: int|
            0 <= i < s.len() && (#[trigger] s[i]).mac == m && s[i].wake == w && is_selected(
                s[i],
                now,
                window,
            ),
    decreases s.len(),
{
    if s.len() > 0 {
        let k = s.len() - 1;
        let init = s.drop_last();
        lemma_selection_members(init, now, window, m, w);
        let full = selection(s, now, window);
        let part = selection(init, now, window);
        if full.contains((m, w)) {
            if part.contains((m, w)) {
                let i = choose|i: int|
                    0 <= i < init.len() && (#[trigger] init[i]).mac == m && init[i].wake == w
                        && is_selected(init[i], now, window);
                assert(s[i] == init[i]);
            } else {
                let j = choose|j: int| 0 <= j < full.len() && full[j] == (m, w);
                assert(j == full.len() - 1);
                assert(s[k].mac == m && s[k].wake == w);
            }
        }
        if exists|i: int|
            0 <= i < s.len() && (#[trigger] s[i]).mac == m && s[i].wake == w && is_selected(
                s[i],
                now,
                window,
            ) {
            let i = choose|i: int|
                0 <= i < s.len() && (#[trigger] s[i]).mac == m && s[i].wake == w && is_selected(
                    s[i],
                    now,
                    window,
                );
            if i == k {
                assert(full.last() == (m, w));
            } else {
                assert(init[i] == s[i]);
                let j = choose|j: int| 0 <= j < part.len() && part[j] == (m, w);
                assert(full[j] == (m, w));
            }
        }
    }
}

/// Among latest reports, one device each: an active device whose report is
/// older than the window is selected with its stored wake flag; a sleeping
/// device that asks to be woken is selected whatever its age; a sleeping
/// device that does not ask is never selected.
pub proof fn lemma_stale_policy(s: Seq<ReportedState>, now: i64, window: i64, i: int)
    requires
        0 <= i < s.len(),
        unique_macs(s),
    ensures
        s[i].status.is_active() && now - s[i].observed_at > window ==> selection(
            s,
            now,
            window,
        ).contains((s[i].mac, s[i].wake)),
        s[i].status == WorkerStatus::Sleep && s[i].wake ==> selection(s, now, window).contains(
            (s[i].mac, true),
        ),
        s[i].status == WorkerStatus::Sleep && !s[i].wake ==> forall|w: bool|
            !(#[trigger] selection(s, now, window).contains((s[i].mac, w))),
{
    lemma_selection_members(s, now, window, s[i].mac, s[i].wake);
    lemma_selection_members(s, now, window, s[i].mac, true);
    assert forall|w: bool|
        s[i].status == WorkerStatus::Sleep && !s[i].wake implies !(#[trigger] selection(
            s,
            now,
            window,
        ).contains((s[i].mac, w))) by {
        lemma_selection_members(s, now, window, s[i].mac, w);
        if selection(s, now, window).contains((s[i].mac, w)) {
            let j = choose|j: int|
                0 <= j < s.len() && (#[trigger] s[j]).mac == s[i].mac && s[j].wake == w
                    && is_selected(s[j], now, window);
            if j != i {
                if j < i {
                    assert(s[j].mac != s[i].mac);
                } else {
                    assert(s[i].mac != s[j].mac);
                }
            }
        }
    }
}

/// A selection from reports of distinct devices names each device once.
pub proof fn lemma_selection_unique(s: Seq<ReportedState>, now: i64, window: i64)
    requires
        unique_macs(s),
    ensures
        forall|a: int, b: int|
            0 <= a < b < selection(s, now, window).len() ==> selection(s, now, window)[a].0
                != selection(s, now, window)[b].0,
    decreases s.len(),
{
    if s.len() > 0 {
        let init = s.drop_last();
        assert(unique_macs(init));
        lemma_selection_unique(init, now, window);
        let part = selection(init, now, window);
        let full = selection(s, now, window);
        assert forall|a: int, b: int| 0 <= a < b < full.len() implies full[a].0 != full[b].0 by {
            if b >= part.len() {
                let x = full[a];
                assert(part[a] == x);
                assert(part.contains(x));
                lemma_selection_members(init, now, window, x.0, x.1);
                let i = choose|i: int|
                    0 <= i < init.len() && (#[trigger] init[i]).mac == x.0 && init[i].wake == x.1
                        && is_selected(init[i], now, window);
                assert(s[i].mac != s[s.len() - 1].mac);
            }
        }
    }
}

} // verus!
