//! The catalogue of installed applications and the lookup of one by name.
//! Discovering the applications and starting one are the host's work.

use vstd::prelude::*;
use crate::system::{lower_of, lowercase};
use crate::text::{concat3, contains, contains_text, texts_equal};

verus! {

/// An installed application: its key (the lower-case name), where it lives,
/// and the name shown to the user.
#[derive(Debug)]
pub struct AppInfo {
    pub name: String,
    pub path: String,
    pub display_name: String,
}

impl AppInfo {
    pub fn duplicate(&self) -> (r: AppInfo)
        ensures
            r == *self,
    {
        AppInfo { name: self.name.clone(), path: self.path.clone(), display_name: self.display_name.clone() }
    }
}

/// The application's name or its lower-cased display name holds `query`.
pub open spec fn loosely_matches(app: AppInfo, query: Seq<char>) -> bool {
    contains_text(app.name@, query) || contains_text(lower_of(app.display_name@), query)
}

/// The catalogue after adding `app`: it replaces the application of the same
/// name, or comes last.
pub open spec fn added(cat: Seq<AppInfo>, app: AppInfo) -> Seq<AppInfo> {
    if exists|i: int| 0 <= i < cat.len() && (#[trigger] cat[i]).name@ == app.name@ {
        let i = choose|i: int| 0 <= i < cat.len() && (#[trigger] cat[i]).name@ == app.name@;
        cat.update(i, app)
    } else {
        cat.push(app)
    }
}

/// The catalogue after adding each of `apps` in turn to an empty one.
pub open spec fn catalogue_of(apps: Seq<AppInfo>) -> Seq<AppInfo>
    decreases apps.len(),
{
    if apps.len() == 0 {
        Seq::empty()
    } else {
        added(catalogue_of(apps.drop_last()), apps.last())
    }
}

/// Installed applications, at most one under each name.
pub struct AppLauncher {
    installed_apps: Vec<AppInfo>,
}

impl AppLauncher {
    /// The applications, in the order in which they were first added.
    pub closed spec fn apps(&self) -> Seq<AppInfo> {
        self.installed_apps@
    }

    pub open spec fn wf(&self) -> bool {
        forall|i: int, j: int|
            0 <= i < j < self.apps().len() ==> (#[trigger] self.apps()[i]).name@ != (#[trigger] self.apps()[j]).name@
    }

    /// The position of the application named exactly `name`.
    pub open spec fn has_name(&self, name: Seq<char>) -> bool {
        exists|i: int| 0 <= i < self.apps().len() && (#[trigger] self.apps()[i]).name@ == name
    }

    /// A catalogue holding `apps`, where a later application replaces an
    /// earlier one of the same name.
    pub fn with_apps(apps: Vec<AppInfo>) -> (r: Self)
        ensures
            r.wf(),
            r.apps() == catalogue_of(apps@),
    {
        let mut r = AppLauncher { installed_apps: Vec::new() };
        let mut k: usize = 0;
        assert(apps@.subrange(0, 0) =~= Seq::<AppInfo>::empty());
        while k < apps.len()
            invariant
                r.wf(),
                k <= apps@.len(),
                r.apps() == catalogue_of(apps@.subrange(0, k as int)),
            decreases apps@.len() - k,
        {
            let app = apps[k].duplicate();
            r.add(app);
            assert(apps@.subrange(0, k + 1).drop_last() =~= apps@.subrange(0, k as int));
            k = k + 1;
        }
        assert(apps@.subrange(0, apps@.len() as int) =~= apps@);
        r
    }

    /// Adds an application, replacing the one of the same name if there is one.
    pub fn add(&mut self, app: AppInfo)
        requires
            old(self).wf(),
        ensures
            final(self).wf(),
            final(self).apps() == added(old(self).apps(), app),
    {
        match self.position(app.name.as_str()) {
            Some(i) => {
                proof {
                    let j = choose|j: int| 0 <= j < self.apps().len() && (#[trigger] self.apps()[j]).name@ == app.name@;
                    if j != i {
                        if j < i {
                            assert(self.apps()[j].name@ != self.apps()[i as int].name@);
                        } else {
                            assert(self.apps()[i as int].name@ != self.apps()[j].name@);
                        }
                    }
                }
                let ghost before = self.apps();
                self.installed_apps.set(i, app);
                assert forall|a: int, b: int| 0 <= a < b < self.apps().len() implies (#[trigger] self.apps()[a]).name@
                    != (#[trigger] self.apps()[b]).name@ by {
                    assert(before[a].name@ != before[b].name@);
                }
            },
            None => {
                let ghost before = self.apps();
                self.installed_apps.push(app);
                assert forall|a: int, b: int| 0 <= a < b < self.apps().len() implies (#[trigger] self.apps()[a]).name@
                    != (#[trigger] self.apps()[b]).name@ by {
                    if b < before.len() {
                        assert(before[a].name@ != before[b].name@);
                    } else {
                        assert(before[a].name@ != app.name@);
                    }
                }
            },
        }
    }

    fn position(&self, name: &str) -> (r: Option<usize>)
        ensures
            r is Some ==> r->0 < self.apps().len() && self.apps()[r->0 as int].name@ == name@,
            r is None ==> !self.has_name(name@),
    {
        let mut i: usize = 0;
        while i < self.installed_apps.len()
            invariant
                i <= self.apps().len(),
                forall|j: int| 0 <= j < i ==> (#[trigger] self.apps()[j]).name@ != name@,
            decreases self.apps().len() - i,
        {
            if texts_equal(self.installed_apps[i].name.as_str(), name) {
                return Some(i);
            }
            i = i + 1;
        }
        None
    }

    /// Finds an application by `query`, compared in lower case: the one named
    /// exactly so if there is one, else the first whose name or display name
    /// holds it.
    pub fn find_app(&self, query: &str) -> (r: Option<&AppInfo>)
        requires
            self.wf(),
        ensures
            self.has_name(lower_of(query@)) ==> r is Some && r->0.name@ == lower_of(query@)
                && self.apps().contains(*r->0),
            !self.has_name(lower_of(query@)) ==> self.first_loose_match(lower_of(query@), r),
    {
        let q = lowercase(query);
        self.find_lowered(q.as_str())
    }

    /// `r` is the first application that loosely matches `query`, or `None`
    /// when none does.
    pub open spec fn first_loose_match(&self, query: Seq<char>, r: Option<&AppInfo>) -> bool {
        match r {
            Some(a) => exists|i: int| {
                &&& 0 <= i < self.apps().len()
                &&& #[trigger] self.apps()[i] == *a
                &&& loosely_matches(*a, query)
                &&& forall|j: int| 0 <= j < i ==> !loosely_matches(#[trigger] self.apps()[j], query)
            },
            None => forall|i: int| 0 <= i < self.apps().len() ==> !loosely_matches(#[trigger] self.apps()[i], query),
        }
    }

    /// Finds an application by a query already in lower case.
    pub fn find_lowered(&self, query: &str) -> (r: Option<&AppInfo>)
        requires
            self.wf(),
        ensures
            self.has_name(query@) ==> r is Some && r->0.name@ == query@ && self.apps().contains(*r->0),
            !self.has_name(query@) ==> self.first_loose_match(query@, r),
    {
        match self.position(query) {
            Some(i) => {
                assert(self.apps()[i as int] == self.installed_apps[i as int]);
                return Some(&self.installed_apps[i]);
            },
            None => {},
        }
        let mut i: usize = 0;
        while i < self.installed_apps.len()
            invariant
                i <= self.apps().len(),
                !self.has_name(query@),
                forall|j: int| 0 <= j < i ==> !loosely_matches(#[trigger] self.apps()[j], query@),
            decreases self.apps().len() - i,
        {
            let app = &self.installed_apps[i];
            let display = lowercase(app.display_name.as_str());
            if contains(app.name.as_str(), query) || contains(display.as_str(), query) {
                assert(loosely_matches(self.apps()[i as int], query@));
                return Some(app);
            }
            i = i + 1;
        }
        None
    }

    /// The application to start for `app_name`, or the error reported when
    /// there is none.
    pub fn launch_target(&self, app_name: &str) -> (r: Result<&AppInfo, String>)
        requires
            self.wf(),
        ensures
            r is Ok ==> self.apps().contains(*r->Ok_0),
            r is Err <==> !self.has_name(lower_of(app_name@)) && self.first_loose_match(lower_of(app_name@), None),
            r is Err ==> r->Err_0@ == "Application '"@ + app_name@ + "' not found"@,
    {
        match self.find_app(app_name) {
            Some(app) => {
                proof {
                    if !self.has_name(lower_of(app_name@)) {
                        let i = choose|i: int| 0 <= i < self.apps().len() && #[trigger] self.apps()[i] == *app
                            && loosely_matches(*app, lower_of(app_name@))
                            && forall|j: int| 0 <= j < i ==> !loosely_matches(#[trigger] self.apps()[j], lower_of(app_name@));
                        assert(!loosely_matches(self.apps()[i], lower_of(app_name@)) == false);
                        assert(self.apps().contains(*app));
                    }
                }
                Ok(app)
            },
            None => Err(concat3("Application '", app_name, "' not found")),
        }
    }

    /// All applications of the catalogue.
    pub fn list_apps(&self) -> (r: &[AppInfo])
        ensures
            r@ == self.apps(),
    {
        self.installed_apps.as_slice()
    }

    /// Replaces the catalogue with a fresh scan.
    pub fn refresh(&mut self, scanned: Vec<AppInfo>)
        ensures
            final(self).wf(),
            final(self).apps() == catalogue_of(scanned@),
    {
        *self = Self::with_apps(scanned);
    }
}

fn app_info(name: &str, path: &str, display_name: &str) -> (r: AppInfo)
    ensures
        r.name@ == name@,
        r.path@ == path@,
        r.display_name@ == display_name@,
{
    AppInfo {
        name: String::from_str(name),
        path: String::from_str(path),
        display_name: String::from_str(display_name),
    }
}

/// The names of the well-known Windows applications.
pub open spec fn common_windows_app_names() -> Seq<Seq<char>> {
    seq!["chrome"@, "firefox"@, "edge"@, "vscode"@, "notepad"@, "calculator"@, "explorer"@]
}

/// Well-known Windows applications at their usual places; the host keeps
/// those whose path exists.
pub fn common_windows_apps() -> (r: Vec<AppInfo>)
    ensures
        r@.map_values(|a: AppInfo| a.name@) == common_windows_app_names(),
{
    let mut v: Vec<AppInfo> = Vec::new();
    v.push(app_info("chrome", "C:\\Program Files\\Google\\Chrome\\Application\\chrome.exe", "Google Chrome"));
    v.push(app_info("firefox", "C:\\Program Files\\Mozilla Firefox\\firefox.exe", "Mozilla Firefox"));
    v.push(app_info("edge", "C:\\Program Files (x86)\\Microsoft\\Edge\\Application\\msedge.exe", "Microsoft Edge"));
    v.push(app_info("vscode", "C:\\Program Files\\Microsoft VS Code\\Code.exe", "Visual Studio Code"));
    v.push(app_info("notepad", "C:\\Windows\\System32\\notepad.exe", "Notepad"));
    v.push(app_info("calculator", "C:\\Windows\\System32\\calc.exe", "Calculator"));
    v.push(app_info("explorer", "C:\\Windows\\explorer.exe", "File Explorer"));
    assert(v@.map_values(|a: AppInfo| a.name@) =~= common_windows_app_names());
    v
}

} // verus!
