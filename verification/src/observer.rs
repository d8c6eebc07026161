//! Observers of the App Handler: who is told about which kind of change, and
//! in which order.

pub mod delivery;

use crate::events::event_data::{ManagedApp, ManagedAppView};
use crate::identity::AppIdentity;
use vstd::prelude::*;

verus! {

/// A handle on one observer. The handler stores it and hands it back with
/// each notification; what stands behind the token is known only to the
/// loop that delivers.
#[derive(Clone, Copy, Debug, PartialEq, Eq, Hash, Structural)]
pub struct AppHandlerObserver {
    pub token: u64,
}

/// The kinds of change that an observer can register for.
#[derive(Clone, Copy, Debug, PartialEq, Eq, Hash, Structural)]
pub enum ObserverCategory {
    /// An application was added.
    Added,
    /// A reference to an application was removed.
    Removed,
    /// The activation of an application was attempted.
    Activated,
    /// The settings of an application were modified.
    Modified,
}

/// What observers are told.
#[derive(Debug, PartialEq, Eq)]
pub enum AppHandlerNotice {
    /// An add was committed; the record as it now stands.
    Added(ManagedApp),
    /// A remove was committed; whether the identity still has a record.
    Removed { id: AppIdentity, still_managed: bool },
    /// The binary was handed to the process launcher. This says nothing of
    /// whether the process started or survived.
    Activated(AppIdentity),
    /// A modification was committed; the record as it now stands.
    Modified(ManagedApp),
}

/// The mathematical value of an [`AppHandlerNotice`].
pub ghost enum NoticeView {
    Added(ManagedAppView),
    Removed { id: AppIdentity, still_managed: bool },
    Activated(AppIdentity),
    Modified(ManagedAppView),
}

/// The category whose observers receive `notice`.
pub open spec fn category_of(notice: NoticeView) -> ObserverCategory {
    match notice {
        NoticeView::Added(_) => ObserverCategory::Added,
        NoticeView::Removed { .. } => ObserverCategory::Removed,
        NoticeView::Activated(_) => ObserverCategory::Activated,
        NoticeView::Modified(_) => ObserverCategory::Modified,
    }
}

impl View for AppHandlerNotice {
    type V = NoticeView;

    open spec fn view(&self) -> NoticeView {
        match *self {
            AppHandlerNotice::Added(app) => NoticeView::Added(app@),
            AppHandlerNotice::Removed { id, still_managed } => NoticeView::Removed {
                id,
                still_managed,
            },
            AppHandlerNotice::Activated(id) => NoticeView::Activated(id),
            AppHandlerNotice::Modified(app) => NoticeView::Modified(app@),
        }
    }
}

impl Clone for AppHandlerNotice {
    fn clone(&self) -> (copy: Self)
        ensures
            copy == *self,
    {
        match self {
            AppHandlerNotice::Added(app) => AppHandlerNotice::Added(app.clone()),
            AppHandlerNotice::Removed { id, still_managed } => AppHandlerNotice::Removed {
                id: *id,
                still_managed: *still_managed,
            },
            AppHandlerNotice::Activated(id) => AppHandlerNotice::Activated(*id),
            AppHandlerNotice::Modified(app) => AppHandlerNotice::Modified(app.clone()),
        }
    }
}

impl AppHandlerNotice {
    /// The category whose observers receive this notice.
    pub fn category(&self) -> (category: ObserverCategory)
        ensures
            category == category_of(self@),
    {
        match self {
            AppHandlerNotice::Added(_) => ObserverCategory::Added,
            AppHandlerNotice::Removed { .. } => ObserverCategory::Removed,
            AppHandlerNotice::Activated(_) => ObserverCategory::Activated,
            AppHandlerNotice::Modified(_) => ObserverCategory::Modified,
        }
    }
}

/// One notice on its way to one observer.
#[derive(Debug, PartialEq, Eq)]
pub struct Notification {
    pub target: AppHandlerObserver,
    pub notice: AppHandlerNotice,
}

/// The mathematical value of a [`Notification`].
pub ghost struct NotificationView {
    pub target: AppHandlerObserver,
    pub notice: NoticeView,
}

impl View for Notification {
    type V = NotificationView;

    open spec fn view(&self) -> NotificationView {
        NotificationView { target: self.target, notice: self.notice@ }
    }
}

/// The mathematical values of a sequence of notifications, in the same order.
pub open spec fn notifications_view(notifications: Seq<Notification>) -> Seq<NotificationView> {
    Seq::new(notifications.len(), |i: int| notifications[i]@)
}

/// The notifications that one notice gives rise to: one for each of
/// `targets`, in their order.
pub open spec fn deliveries(targets: Seq<AppHandlerObserver>, notice: NoticeView) -> Seq<
    NotificationView,
> {
    Seq::new(targets.len(), |i: int| NotificationView { target: targets[i], notice })
}

/// The four lists of observers as mathematical values, each in the order of
/// registration.
pub ghost struct ObserverRegistryView {
    pub added: Seq<AppHandlerObserver>,
    pub removed: Seq<AppHandlerObserver>,
    pub activated: Seq<AppHandlerObserver>,
    pub modified: Seq<AppHandlerObserver>,
}

impl ObserverRegistryView {
    /// No observer in any category.
    pub open spec fn empty() -> ObserverRegistryView {
        ObserverRegistryView {
            added: Seq::empty(),
            removed: Seq::empty(),
            activated: Seq::empty(),
            modified: Seq::empty(),
        }
    }

    /// The observers of `category`, in the order of registration.
    pub open spec fn list(self, category: ObserverCategory) -> Seq<AppHandlerObserver> {
        match category {
            ObserverCategory::Added => self.added,
            ObserverCategory::Removed => self.removed,
            ObserverCategory::Activated => self.activated,
            ObserverCategory::Modified => self.modified,
        }
    }

    /// These lists with `observer` appended to that of `category`.
    pub open spec fn registered(
        self,
        category: ObserverCategory,
        observer: AppHandlerObserver,
    ) -> ObserverRegistryView {
        match category {
            ObserverCategory::Added => ObserverRegistryView {
                added: self.added.push(observer),
                ..self
            },
            ObserverCategory::Removed => ObserverRegistryView {
                removed: self.removed.push(observer),
                ..self
            },
            ObserverCategory::Activated => ObserverRegistryView {
                activated: self.activated.push(observer),
                ..self
            },
            ObserverCategory::Modified => ObserverRegistryView {
                modified: self.modified.push(observer),
                ..self
            },
        }
    }

    /// The notifications that `notice` gives rise to.
    pub open spec fn dispatch(self, notice: NoticeView) -> Seq<NotificationView> {
        deliveries(self.list(category_of(notice)), notice)
    }
}

/// Four independent lists of observers, one for each category. An observer
/// may stand in a list several times and is then notified as many times.
pub struct ObserverRegistry {
    added: Vec<AppHandlerObserver>,
    removed: Vec<AppHandlerObserver>,
    activated: Vec<AppHandlerObserver>,
    modified: Vec<AppHandlerObserver>,
}

impl View for ObserverRegistry {
    type V = ObserverRegistryView;

    closed spec fn view(&self) -> ObserverRegistryView {
        ObserverRegistryView {
            added: self.added@,
            removed: self.removed@,
            activated: self.activated@,
            modified: self.modified@,
        }
    }
}

impl ObserverRegistry {
    /// Lists without observers.
    pub fn new() -> (registry: Self)
        ensures
            registry@ == ObserverRegistryView::empty(),
    {
        ObserverRegistry {
            added: Vec::new(),
            removed: Vec::new(),
            activated: Vec::new(),
            modified: Vec::new(),
        }
    }

    /// Appends `observer` to the list of `category`. Nothing is checked: an
    /// observer that is registered twice is notified twice.
    pub fn register(&mut self, category: ObserverCategory, observer: AppHandlerObserver)
        ensures
            final(self)@ == old(self)@.registered(category, observer),
    {
        match category {
            ObserverCategory::Added => self.added.push(observer),
            ObserverCategory::Removed => self.removed.push(observer),
            ObserverCategory::Activated => self.activated.push(observer),
            ObserverCategory::Modified => self.modified.push(observer),
        }
    }

    /// The observers of `category`, in the order of registration.
    pub fn observers(&self, category: ObserverCategory) -> (list: &Vec<AppHandlerObserver>)
        ensures
            list@ == self@.list(category),
    {
        match category {
            ObserverCategory::Added => &self.added,
            ObserverCategory::Removed => &self.removed,
            ObserverCategory::Activated => &self.activated,
            ObserverCategory::Modified => &self.modified,
        }
    }

    /// The notifications that `notice` gives rise to: one for each observer
    /// of its category, in the order of registration.
    pub fn dispatch(&self, notice: &AppHandlerNotice) -> (notifications: Vec<Notification>)
        ensures
            notifications_view(notifications@) == self@.dispatch(notice@),
    {
        let targets = self.observers(notice.category());
        let mut notifications: Vec<Notification> = Vec::new();
        let mut i: usize = 0;
        while i < targets.len()
            invariant
                i <= targets.len(),
                notifications@.len() == i,
                forall|k: int|
                    0 <= k < i ==> (#[trigger] notifications@[k])@ == (NotificationView {
                        target: targets@[k],
                        notice: notice@,
                    }),
            decreases targets.len() - i,
        {
            notifications.push(Notification { target: targets[i], notice: notice.clone() });
            i += 1;
        }
        assert(notifications_view(notifications@) =~= self@.dispatch(notice@));
        notifications
    }
}

} // verus!
