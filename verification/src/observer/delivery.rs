//! What a registration means for the notifications that follow it.

use crate::observer::{
    category_of, deliveries, AppHandlerObserver, NoticeView, NotificationView, ObserverCategory,
    ObserverRegistryView,
};
use vstd::prelude::*;

verus! {

/// The notifications that a sequence of notices gives rise to, one notice
/// after the other.
pub open spec fn stream(observers: ObserverRegistryView, notices: Seq<NoticeView>) -> Seq<
    NotificationView,
>
    decreases notices.len(),
{
    if notices.len() == 0 {
        Seq::empty()
    } else {
        stream(observers, notices.drop_last()) + observers.dispatch(notices.last())
    }
}

/// Number of notifications among `notifications` that go to `observer`.
pub open spec fn received(notifications: Seq<NotificationView>, observer: AppHandlerObserver) -> nat
    decreases notifications.len(),
{
    if notifications.len() == 0 {
        0
    } else {
        let last: nat = if notifications.last().target == observer {
            1
        } else {
            0
        };
        received(notifications.drop_last(), observer) + last
    }
}

/// Number of times that `observer` stands in `targets`.
pub open spec fn registrations(targets: Seq<AppHandlerObserver>, observer: AppHandlerObserver) -> nat
    decreases targets.len(),
{
    if targets.len() == 0 {
        0
    } else {
        let last: nat = if targets.last() == observer {
            1
        } else {
            0
        };
        registrations(targets.drop_last(), observer) + last
    }
}

/// What two runs of notifications hold for an observer, they hold together.
pub proof fn lemma_received_adds_up(
    first: Seq<NotificationView>,
    second: Seq<NotificationView>,
    observer: AppHandlerObserver,
)
    ensures
        received(first + second, observer) == received(first, observer) + received(
            second,
            observer,
        ),
    decreases second.len(),
{
    if second.len() == 0 {
        assert(first + second =~= first);
    } else {
        assert((first + second).drop_last() =~= first + second.drop_last());
        lemma_received_adds_up(first, second.drop_last(), observer);
    }
}

/// One notice reaches the observers of its category in the order in which
/// they registered: the notification at each place goes to the observer
/// registered at that place, and carries the notice.
pub proof fn law_delivery_in_registration_order(
    targets: Seq<AppHandlerObserver>,
    notice: NoticeView,
)
    ensures
        deliveries(targets, notice).len() == targets.len(),
        forall|i: int|
            0 <= i < targets.len() ==> #[trigger] deliveries(targets, notice)[i]
                == (NotificationView { target: targets[i], notice }),
{
}

/// One notice reaches an observer as many times as the observer stands in
/// the list.
pub proof fn law_one_notification_for_each_registration(
    targets: Seq<AppHandlerObserver>,
    notice: NoticeView,
    observer: AppHandlerObserver,
)
    ensures
        received(deliveries(targets, notice), observer) == registrations(targets, observer),
    decreases targets.len(),
{
    if targets.len() > 0 {
        assert(deliveries(targets, notice).drop_last() =~= deliveries(
            targets.drop_last(),
            notice,
        ));
        law_one_notification_for_each_registration(targets.drop_last(), notice, observer);
    }
}

/// A registration adds to what a notice of its category gives rise to one
/// notification to the new observer, after those to the observers that
/// registered before; for a notice of another category it adds nothing.
pub proof fn law_registration_adds_last_delivery(
    observers: ObserverRegistryView,
    category: ObserverCategory,
    observer: AppHandlerObserver,
    notice: NoticeView,
)
    ensures
        category_of(notice) == category ==> observers.registered(category, observer).dispatch(
            notice,
        ) == observers.dispatch(notice).push(NotificationView { target: observer, notice }),
        category_of(notice) != category ==> observers.registered(category, observer).dispatch(
            notice,
        ) == observers.dispatch(notice),
{
    let after = observers.registered(category, observer);
    if category_of(notice) == category {
        assert(after.list(category) == observers.list(category).push(observer));
        assert(after.dispatch(notice) =~= observers.dispatch(notice).push(
            NotificationView { target: observer, notice },
        ));
    } else {
        assert(after.list(category_of(notice)) == observers.list(category_of(notice)));
    }
}

/// After one registration, any number of notices of that category brings
/// the new observer exactly that number of notifications more than it would
/// have had without the registration.
pub proof fn law_registration_receives_every_notice(
    observers: ObserverRegistryView,
    category: ObserverCategory,
    observer: AppHandlerObserver,
    notices: Seq<NoticeView>,
)
    requires
        forall|i: int| 0 <= i < notices.len() ==> category_of(#[trigger] notices[i]) == category,
    ensures
        received(stream(observers.registered(category, observer), notices), observer)
            == received(stream(observers, notices), observer) + notices.len(),
    decreases notices.len(),
{
    if notices.len() > 0 {
        let after = observers.registered(category, observer);
        let earlier = notices.drop_last();
        let notice = notices.last();
        assert forall|i: int| 0 <= i < earlier.len() implies category_of(#[trigger] earlier[i])
            == category by {
            assert(earlier[i] == notices[i]);
        }
        law_registration_receives_every_notice(observers, category, observer, earlier);
        law_registration_adds_last_delivery(observers, category, observer, notice);
        lemma_received_adds_up(stream(after, earlier), after.dispatch(notice), observer);
        lemma_received_adds_up(stream(observers, earlier), observers.dispatch(notice), observer);
        let added = NotificationView { target: observer, notice };
        assert(observers.dispatch(notice).push(added).drop_last() =~= observers.dispatch(notice));
    }
}

} // verus!
