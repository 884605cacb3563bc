//! The producer path: filter the recipients against the online set, then
//! make one non-blocking enqueue attempt on the shared backlog.
//!
//! The presence lookup itself is a network read performed by the caller;
//! its result — the identities currently online — is handed in as a plain
//! list.

use vstd::prelude::*;

use crate::backlog::Backlog;
use crate::notification::Notification;
use crate::notification::NotificationTask;

verus! {

/// Whether one of the identities is the given text.
fn contains_id(ids: &Vec<String>, s: &String) -> (r: bool)
    ensures
        r == ids.deep_view().contains(s@),
{
    let mut i: usize = 0;
    while i < ids.len()
        invariant
            i <= ids@.len(),
            forall|j: int| 0 <= j < i ==> ids.deep_view()[j] != s@,
        decreases ids@.len() - i,
    {
        if ids[i].eq(s) {
            proof {
                assert(ids.deep_view()[i as int] == s@);
            }
            return true;
        }
        i = i + 1;
    }
    proof {
        assert(forall|j: int| 0 <= j < ids.deep_view().len() ==> ids.deep_view()[j] != s@);
    }
    false
}

/// Keeps the recipients that are not online, one occurrence each: the
/// result holds exactly the identities of `recipients` minus those of
/// `online`, without duplicates.
pub fn filter_offline(recipients: &Vec<String>, online: &Vec<String>) -> (r: Vec<String>)
    ensures
        r.deep_view().no_duplicates(),
        forall|x: Seq<char>|
            r.deep_view().contains(x) <==> (recipients.deep_view().contains(x)
                && !online.deep_view().contains(x)),
{
    let mut out: Vec<String> = Vec::new();
    let mut i: usize = 0;
    while i < recipients.len()
        invariant
            i <= recipients@.len(),
            out.deep_view().no_duplicates(),
            forall|x: Seq<char>|
                out.deep_view().contains(x) <==> (recipients.deep_view().take(i as int).contains(x)
                    && !online.deep_view().contains(x)),
        decreases recipients@.len() - i,
    {
        let ghost pre = out.deep_view();
        let ghost cur = recipients.deep_view()[i as int];
        if !contains_id(online, &recipients[i]) && !contains_id(&out, &recipients[i]) {
            out.push(recipients[i].clone());
            proof {
                assert(out.deep_view() =~= pre.push(cur));
                assert forall|p: int, q: int|
                    0 <= p < out.deep_view().len() && 0 <= q < out.deep_view().len() && p
                        != q implies out.deep_view()[p] != out.deep_view()[q] by {
                    if p < pre.len() && q < pre.len() {
                        assert(pre[p] == out.deep_view()[p]);
                        assert(pre[q] == out.deep_view()[q]);
                    } else if q == pre.len() && p < pre.len() {
                        assert(pre.contains(pre[p]));
                    } else if p == pre.len() && q < pre.len() {
                        assert(pre.contains(pre[q]));
                    }
                }
                assert(out.deep_view().no_duplicates());
                assert forall|x: Seq<char>| #[trigger]
                    out.deep_view().contains(x) implies pre.contains(x) || x == cur by {
                    let w = choose|w: int|
                        0 <= w < out.deep_view().len() && out.deep_view()[w] == x;
                    if w < pre.len() {
                        assert(pre[w] == x);
                    }
                }
                assert(out.deep_view()[pre.len() as int] == cur);
                assert(out.deep_view().contains(cur));
                assert forall|x: Seq<char>| pre.contains(x) implies #[trigger] out.deep_view()
                    .contains(x) by {
                    let w = choose|w: int| 0 <= w < pre.len() && pre[w] == x;
                    assert(out.deep_view()[w] == x);
                }
            }
        }
        proof {
            let ghost taken = recipients.deep_view().take(i as int);
            let ghost snoc = taken.push(cur);
            assert(recipients.deep_view().take(i as int + 1) =~= snoc);
            assert forall|x: Seq<char>| #[trigger] snoc.contains(x) implies taken.contains(x) || x
                == cur by {
                let w = choose|w: int| 0 <= w < snoc.len() && snoc[w] == x;
                if w < taken.len() {
                    assert(taken[w] == x);
                }
            }
            assert(snoc[taken.len() as int] == cur);
            assert(snoc.contains(cur));
            assert(forall|x: Seq<char>| taken.contains(x) ==> #[trigger] snoc.contains(x));
        }
        i = i + 1;
    }
    proof {
        assert(recipients.deep_view().take(recipients@.len() as int) =~= recipients.deep_view());
    }
    out
}

/// Producer API: queues one notification for fanout.
///
/// The recipients are filtered against the online set and the remaining
/// work is appended to the backlog with one non-blocking attempt. An empty
/// recipient list changes nothing. A backlog at capacity drops the task:
/// the caller is not told, by design — it is never blocked either.
pub fn queue(
    backlog: &mut Backlog,
    recipients: Vec<String>,
    online: &Vec<String>,
    payload: Notification,
)
    requires
        old(backlog).wf(),
    ensures
        final(backlog).wf(),
        final(backlog).spec_capacity() == old(backlog).spec_capacity(),
        recipients@.len() == 0 ==> final(backlog)@ == old(backlog)@,
        recipients@.len() > 0 && old(backlog)@.len() == old(backlog).spec_capacity()
            ==> final(backlog)@ == old(backlog)@,
        recipients@.len() > 0 && old(backlog)@.len() < old(backlog).spec_capacity() ==> {
            &&& final(backlog)@.len() == old(backlog)@.len() + 1
            &&& final(backlog)@ == old(backlog)@.push(final(backlog)@.last())
            &&& final(backlog)@.last().payload == payload@
            &&& final(backlog)@.last().recipients.no_duplicates()
            &&& forall|x: Seq<char>|
                final(backlog)@.last().recipients.contains(x) <==> (
                recipients.deep_view().contains(x) && !online.deep_view().contains(x))
        },
{
    if recipients.len() == 0 {
        return ;
    }
    let offline = filter_offline(&recipients, online);
    let task = NotificationTask { recipients: offline, payload };
    backlog.try_enqueue(task);
}

} // verus!
