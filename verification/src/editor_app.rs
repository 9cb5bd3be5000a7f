//! The editor as a whole: its tabs, the library, the monitors and what is
//! assigned to them, the open project, and what the status line says.

use vstd::prelude::*;

use crate::draft::Draft;
use crate::editor::EditorLayer;
use crate::library::{scan, Found, LibraryEntry};
use crate::monitors_config::{save, Assignments};
use crate::paths::file_name;
use crate::shaders_library::ShaderLibraryEntry;
use crate::text::{decimal_chars, push_str, string_of};

verus! {

// --- The state -------------------------------------------------------------

#[derive(Debug, Clone, Copy, PartialEq, Eq, Structural)]
pub enum Tab {
    Wallpapers,
    Discover,
    Editor,
}

/// A monitor that is connected.
pub struct MonitorInfo {
    pub name: String,
    pub width: u32,
    pub height: u32,
}

pub struct MonitorInfoModel {
    pub name: Seq<char>,
    pub width: u32,
    pub height: u32,
}

impl View for MonitorInfo {
    type V = MonitorInfoModel;

    open spec fn view(&self) -> MonitorInfoModel {
        MonitorInfoModel { name: self.name@, width: self.width, height: self.height }
    }
}

pub open spec fn monitors_view(monitors: Seq<MonitorInfo>) -> Seq<MonitorInfoModel> {
    monitors.map_values(|m: MonitorInfo| m@)
}

/// The editor.
pub struct EditorApp {
    pub tab: Tab,
    /// The tab that was shown in the frame before.
    pub previous_tab: Tab,
    pub show_about: bool,
    pub monitors: Vec<MonitorInfo>,
    pub assignments: Assignments,
    pub library: Vec<LibraryEntry>,
    pub autostart_enabled: bool,
    /// The project that a monitor is being picked for.
    pub apply_overlay: Option<String>,
    /// The project that is to be deleted, if the user confirms it.
    pub delete_overlay: Option<String>,
    pub draft: Draft,
    pub status: String,
}

pub struct AppModel {
    pub tab: Tab,
    pub previous_tab: Tab,
    pub show_about: bool,
    pub monitors: Seq<MonitorInfoModel>,
    pub assignments: Map<Seq<char>, Seq<char>>,
    pub library: Seq<crate::library::LibraryEntryModel>,
    pub autostart_enabled: bool,
    pub apply_overlay: Option<Seq<char>>,
    pub delete_overlay: Option<Seq<char>>,
    pub draft: crate::draft::DraftModel,
    pub status: Seq<char>,
}

impl View for EditorApp {
    type V = AppModel;

    open spec fn view(&self) -> AppModel {
        AppModel {
            tab: self.tab,
            previous_tab: self.previous_tab,
            show_about: self.show_about,
            monitors: monitors_view(self.monitors@),
            assignments: self.assignments@,
            library: crate::library::entries_view(self.library@),
            autostart_enabled: self.autostart_enabled,
            apply_overlay: crate::text::opt_view(self.apply_overlay),
            delete_overlay: crate::text::opt_view(self.delete_overlay),
            draft: self.draft@,
            status: self.status@,
        }
    }
}

// --- Texts -----------------------------------------------------------------

/// Two texts, one after the other.
fn text2(a: &str, b: &str) -> (r: String)
    ensures
        r@ == a@ + b@,
{
    let mut text: Vec<char> = Vec::new();
    push_str(&mut text, a);
    push_str(&mut text, b);
    string_of(text.as_slice())
}

/// Three texts, one after the other.
fn text3(a: &str, b: &str, c: &str) -> (r: String)
    ensures
        r@ == a@ + b@ + c@,
{
    let mut text: Vec<char> = Vec::new();
    push_str(&mut text, a);
    push_str(&mut text, b);
    push_str(&mut text, c);
    string_of(text.as_slice())
}

/// Four texts, one after the other.
fn text4(a: &str, b: &str, c: &str, d: &str) -> (r: String)
    ensures
        r@ == a@ + b@ + c@ + d@,
{
    let mut text: Vec<char> = Vec::new();
    push_str(&mut text, a);
    push_str(&mut text, b);
    push_str(&mut text, c);
    push_str(&mut text, d);
    string_of(text.as_slice())
}

fn number_text(n: u64) -> (r: String)
    ensures
        r@ == crate::text::decimal(n as nat),
{
    string_of(decimal_chars(n).as_slice())
}

/// What is said of a wallpaper when the cursor is over it.
pub fn hover_text(entry: &LibraryEntry) -> (r: String)
    ensures
        r@ == entry@.shown_name() + " -- "@ + crate::text::decimal(entry@.layer_count as nat)
            + " layer(s), "@ + crate::text::decimal(entry@.fps as nat) + " fps"@,
{
    let front = text4(
        entry.display_name().as_str(),
        " -- ",
        number_text(entry.layer_count as u64).as_str(),
        " layer(s), ",
    );
    text3(front.as_str(), number_text(entry.fps as u64).as_str(), " fps")
}

/// The row of an item in a list: its place, from one on, and what it is.
pub fn list_row(index: usize, label: &str) -> (r: String)
    requires
        index < usize::MAX,
    ensures
        r@ == "#"@ + crate::text::decimal((index + 1) as nat) + " "@ + label@,
{
    text4("#", number_text((index + 1) as u64).as_str(), " ", label)
}

/// What the button for a monitor says.
pub fn monitor_button(monitor: &MonitorInfo) -> (r: String)
    ensures
        r@ == monitor@.name + " ("@ + crate::text::decimal(monitor@.width as nat) + "x"@
            + crate::text::decimal(monitor@.height as nat) + ")"@,
{
    let front = text4(
        monitor.name.as_str(),
        " (",
        number_text(monitor.width as u64).as_str(),
        "x",
    );
    text3(front.as_str(), number_text(monitor.height as u64).as_str(), ")")
}

/// What the list of shaders shows as picked: the shader's name in the library,
/// or else the name of its file.
pub open spec fn shader_shown(
    entries: Seq<(Seq<char>, Seq<char>)>,
    path: Option<Seq<char>>,
) -> Seq<char>
    decreases entries.len(),
{
    if path is Some && entries.len() > 0 && entries[0].1 == path->0 {
        entries[0].0
    } else if path is Some && entries.len() > 0 {
        shader_shown(entries.skip(1), path)
    } else if path is Some && crate::paths::file_name_of(path->0) is Some {
        crate::paths::file_name_of(path->0)->0
    } else {
        "Select..."@
    }
}

/// The name of the file at a path, or that there is none.
pub fn file_label(path: &Option<String>) -> (r: String)
    ensures
        r@ == match crate::text::opt_view(*path) {
            Some(p) => match crate::paths::file_name_of(p) {
                Some(name) => name,
                None => "not set"@,
            },
            None => "not set"@,
        },
{
    match path {
        Some(p) => match file_name(p.as_str()) {
            Some(name) => name,
            None => "not set".to_string(),
        },
        None => "not set".to_string(),
    }
}

/// The file that a mask is painted in until the project is saved: no two of
/// one process are the same.
pub fn paint_mask_file(process: u32, count: u64) -> (r: String)
    ensures
        r@ == "wplinux-paint-mask-"@ + crate::text::decimal(process as nat) + "-"@
            + crate::text::decimal(count as nat) + ".png"@,
{
    let front = text4(
        "wplinux-paint-mask-",
        number_text(process as u64).as_str(),
        "-",
        number_text(count).as_str(),
    );
    text2(front.as_str(), ".png")
}

/// What the list of shaders shows as picked.
pub fn shader_choice(entries: &Vec<ShaderLibraryEntry>, path: &Option<String>) -> (r: String)
    ensures
        r@ == shader_shown(
            crate::shaders_library::shaders_view(entries@),
            crate::text::opt_view(*path),
        ),
{
    let p = match path {
        Some(p) => p,
        None => {
            return "Select...".to_string();
        },
    };
    let ghost all = crate::shaders_library::shaders_view(entries@);
    let ghost wanted = crate::text::opt_view(*path);
    let mut i: usize = 0;
    assert(all.skip(0) =~= all);
    while i < entries.len()
        invariant
            all == crate::shaders_library::shaders_view(entries@),
            wanted == Some(p@),
            wanted == crate::text::opt_view(*path),
            i <= entries@.len(),
            shader_shown(all.skip(i as int), wanted) == shader_shown(all, wanted),
        decreases entries.len() - i,
    {
        assert(all.skip(i as int)[0] == (entries@[i as int].name@, entries@[i as int].path@));
        assert(all.skip(i as int).skip(1) =~= all.skip(i as int + 1));
        if entries[i].path == *p {
            return entries[i].name.clone();
        }
        i += 1;
    }
    assert(all.skip(i as int).len() == 0);
    match file_name(p.as_str()) {
        Some(name) => name,
        None => "Select...".to_string(),
    }
}

// --- Tabs, monitors and the library ----------------------------------------

/// The monitors among what was seen: those with a name, each once, as it was
/// seen first.
pub open spec fn named_monitors(seen: Seq<(Option<String>, u32, u32)>) -> Seq<MonitorInfoModel>
    decreases seen.len(),
{
    if seen.len() == 0 {
        seq![]
    } else {
        let rest = named_monitors(seen.drop_last());
        match crate::text::opt_view(seen.last().0) {
            Some(name) => if has_monitor(rest, name) {
                rest
            } else {
                rest.push(
                    MonitorInfoModel { name, width: seen.last().1, height: seen.last().2 },
                )
            },
            None => rest,
        }
    }
}

pub open spec fn has_monitor(monitors: Seq<MonitorInfoModel>, name: Seq<char>) -> bool {
    exists|i: int| 0 <= i < monitors.len() && (#[trigger] monitors[i]).name == name
}

fn knows_monitor(monitors: &Vec<MonitorInfo>, name: &String) -> (r: bool)
    ensures
        r == has_monitor(monitors_view(monitors@), name@),
{
    let ghost models = monitors_view(monitors@);
    let mut i: usize = 0;
    while i < monitors.len()
        invariant
            models == monitors_view(monitors@),
            i <= monitors@.len(),
            forall|k: int| 0 <= k < i ==> (#[trigger] models[k]).name != name@,
        decreases monitors.len() - i,
    {
        assert(models[i as int] == monitors@[i as int]@);
        if monitors[i].name == *name {
            assert(has_monitor(models, name@));
            return true;
        }
        i += 1;
    }
    false
}

/// No monitor is listed twice.
pub proof fn monitors_are_listed_once(seen: Seq<(Option<String>, u32, u32)>, i: int, j: int)
    requires
        0 <= i < j < named_monitors(seen).len(),
    ensures
        named_monitors(seen)[i].name != named_monitors(seen)[j].name,
    decreases seen.len(),
{
    let rest = named_monitors(seen.drop_last());
    if j < rest.len() {
        monitors_are_listed_once(seen.drop_last(), i, j);
    } else {
        assert(rest[i].name == named_monitors(seen)[i].name);
    }
}

impl AppModel {
    /// The editor once it has seen which monitors are connected.
    pub open spec fn with_monitors(self, seen: Seq<(Option<String>, u32, u32)>) -> AppModel {
        AppModel { monitors: named_monitors(seen), ..self }
    }

    /// The editor with a project assigned to a monitor.
    pub open spec fn with_assignment(self, monitor: Seq<char>, project_dir: Seq<char>) -> AppModel {
        AppModel {
            assignments: self.assignments.insert(monitor, project_dir),
            ..self
        }
    }

    /// The editor once it is known whether the assignments could be written.
    pub open spec fn with_assignment_saved(self, outcome: Result<(), String>) -> AppModel {
        match outcome {
            Ok(()) => self,
            Err(e) => AppModel {
                status: "Failed to save monitor assignment: "@ + e@,
                ..self
            },
        }
    }

    /// The editor once it is known what the server made of an assignment.
    pub open spec fn with_assignment_pushed(
        self,
        monitor: Seq<char>,
        project_dir: Seq<char>,
        outcome: Result<(), String>,
    ) -> AppModel {
        AppModel {
            status: match outcome {
                Ok(()) => "Assigned "@ + monitor + " -> "@ + project_dir,
                Err(e) => "Assigned locally, but couldn't reach render-server: "@ + e@,
            },
            ..self
        }
    }

    /// The editor once it is known whether the start at login could be switched.
    pub open spec fn with_autostart(
        self,
        wanted: bool,
        outcome: Result<(), String>,
        is_enabled: bool,
    ) -> AppModel {
        match outcome {
            Ok(()) => AppModel { autostart_enabled: wanted, ..self },
            Err(e) => AppModel {
                autostart_enabled: is_enabled,
                status: "Failed to update autostart: "@ + e@,
                ..self
            },
        }
    }

    /// The editor once it is known whether a wallpaper could be deleted.
    pub open spec fn with_deleted(self, dir: Seq<char>, outcome: Result<(), String>) -> AppModel {
        AppModel {
            delete_overlay: None,
            status: match outcome {
                Ok(()) => "Deleted "@ + dir,
                Err(e) => "Failed to delete "@ + dir + ": "@ + e@,
            },
            ..self
        }
    }

    /// The editor with a new project.
    pub open spec fn with_new_project(self) -> AppModel {
        AppModel {
            draft: crate::draft::blank_draft(),
            status: seq![],
            ..self
        }
    }

    /// The editor once it is known whether a wallpaper could be loaded.
    pub open spec fn with_opened(
        self,
        entry: crate::library::LibraryEntryModel,
        opened: Result<(Vec<EditorLayer>, u32, String), String>,
    ) -> AppModel {
        match opened {
            Ok((layers, fps, description)) => AppModel {
                tab: Tab::Editor,
                draft: crate::draft::DraftModel {
                    layers: crate::editor::editor_view(layers@),
                    selected: None,
                    selected_effect: None,
                    fps,
                    id: Some(entry.id),
                    name: entry.name,
                    description: description@,
                },
                status: "Opened "@ + entry.dir,
                ..self
            },
            Err(e) => AppModel {
                status: "Failed to open "@ + entry.dir + ": "@ + e@,
                ..self
            },
        }
    }

    /// The editor once it is known whether the open project could be saved.
    pub open spec fn with_saved(
        self,
        id: Seq<char>,
        dir: Seq<char>,
        outcome: Result<(), String>,
    ) -> AppModel {
        match outcome {
            Ok(()) => AppModel {
                draft: crate::draft::DraftModel { id: Some(id), ..self.draft },
                status: "Saved to "@ + dir,
                ..self
            },
            Err(e) => AppModel { status: "Failed to save: "@ + e@, ..self },
        }
    }

    /// The wallpapers come back into view.
    pub open spec fn wallpapers_come_back(self) -> bool {
        !(self.previous_tab is Wallpapers) && self.tab is Wallpapers
    }

    /// The editor at the end of a frame's choice of a tab.
    pub open spec fn with_tab_settled(self) -> AppModel {
        AppModel { previous_tab: self.tab, ..self }
    }

    /// The commands of the open project may run from now on.
    pub open spec fn earns_trust(self, outcome: Result<(), String>) -> bool {
        outcome is Ok && crate::draft::runs_command(self.draft.layers)
    }

    /// Under which name the open project is saved.
    pub open spec fn saved_as(self, fresh: Seq<char>) -> Seq<char> {
        match self.draft.id {
            Some(id) => id,
            None => fresh,
        }
    }
}

impl EditorApp {
    /// The editor as it starts.
    pub fn new(
        assignments: Assignments,
        library: Vec<LibraryEntry>,
        autostart_enabled: bool,
    ) -> (r: EditorApp)
        ensures
            r@ == (AppModel {
                tab: Tab::Wallpapers,
                previous_tab: Tab::Wallpapers,
                show_about: false,
                monitors: seq![],
                assignments: assignments@,
                library: crate::library::entries_view(library@),
                autostart_enabled,
                apply_overlay: None,
                delete_overlay: None,
                draft: crate::draft::blank_draft(),
                status: seq![],
            }),
            assignments.wf() ==> r.assignments.wf(),
    {
        let r = EditorApp {
            tab: Tab::Wallpapers,
            previous_tab: Tab::Wallpapers,
            show_about: false,
            monitors: Vec::new(),
            assignments,
            library,
            autostart_enabled,
            apply_overlay: None,
            delete_overlay: None,
            draft: Draft::new(),
            status: String::new(),
        };
        assert(r@.monitors =~= seq![]);
        assert(r@.status =~= seq![]);
        r
    }

    /// Takes in which monitors are connected.
    pub fn see_monitors(&mut self, seen: Vec<(Option<String>, u32, u32)>)
        ensures
            final(self)@ == old(self)@.with_monitors(seen@),
            old(self).assignments.wf() ==> final(self).assignments.wf(),
    {
        let ghost whole = seen@;
        let mut monitors: Vec<MonitorInfo> = Vec::new();
        assert(monitors_view(monitors@) =~= seq![]);
        assert(whole.take(0) =~= seq![]);
        for item in it: seen.into_iter()
            invariant
                it.seq() == whole,
                monitors_view(monitors@) == named_monitors(whole.take(it.index() as int)),
        {
            let ghost n = it.index() as int;
            let ghost before = monitors_view(monitors@);
            assert(whole.take(n + 1).drop_last() =~= whole.take(n));
            assert(whole.take(n + 1).last() == item);
            match item.0 {
                Some(name) => {
                    if !knows_monitor(&monitors, &name) {
                        let monitor = MonitorInfo { name, width: item.1, height: item.2 };
                        let ghost model = monitor@;
                        monitors.push(monitor);
                        assert(monitors_view(monitors@) =~= before.push(model));
                    }
                },
                None => {},
            }
        }
        assert(whole.take(whole.len() as int) =~= whole);
        self.monitors = monitors;
    }

    /// Ends a frame's choice of a tab. Says whether the library has to be
    /// looked through again: whenever the wallpapers come back into view.
    pub fn settle_tab(&mut self) -> (rescan: bool)
        ensures
            rescan == old(self)@.wallpapers_come_back(),
            final(self)@ == old(self)@.with_tab_settled(),
            old(self).assignments.wf() ==> final(self).assignments.wf(),
    {
        let rescan = match (self.previous_tab, self.tab) {
            (Tab::Wallpapers, _) => false,
            (_, Tab::Wallpapers) => true,
            _ => false,
        };
        self.previous_tab = self.tab;
        rescan
    }

    /// Takes in what the library's directory holds.
    pub fn rescan_library(&mut self, found: Vec<Found>)
        ensures
            final(self)@ == (AppModel {
                library: crate::library::sorted(crate::library::entries_of(found@)),
                ..old(self)@
            }),
            crate::library::in_order(final(self)@.library),
            final(self)@.library.to_multiset() == crate::library::entries_of(
                found@,
            ).to_multiset(),
            old(self).assignments.wf() ==> final(self).assignments.wf(),
    {
        self.library = scan(found);
    }

    // --- Assigning ---------------------------------------------------------

    /// Assigns a project to a monitor, and gives the text of the file that is
    /// to hold the assignments.
    pub fn assign(&mut self, monitor: &str, project_dir: &str) -> (file: Result<String, String>)
        requires
            old(self).assignments.wf(),
        ensures
            final(self).assignments.wf(),
            final(self)@ == old(self)@.with_assignment(monitor@, project_dir@),
            file is Ok,
            file matches Ok(text) ==> crate::monitors_config::assigned(Some(text@))
                == final(self)@.assignments,
    {
        self.assignments.insert(monitor, project_dir);
        save(&self.assignments)
    }

    /// Takes in whether the file could be written. Says whether the server is
    /// to be told.
    pub fn assignment_saved(&mut self, outcome: &Result<(), String>) -> (tell: bool)
        ensures
            tell == (outcome is Ok),
            final(self)@ == old(self)@.with_assignment_saved(*outcome),
            old(self).assignments.wf() ==> final(self).assignments.wf(),
    {
        match outcome {
            Ok(()) => true,
            Err(e) => {
                self.status = text2("Failed to save monitor assignment: ", e.as_str());
                false
            },
        }
    }

    /// Takes in what the server made of it.
    pub fn assignment_pushed(
        &mut self,
        monitor: &str,
        project_dir: &str,
        outcome: &Result<(), String>,
    )
        ensures
            final(self)@ == old(self)@.with_assignment_pushed(monitor@, project_dir@, *outcome),
            old(self).assignments.wf() ==> final(self).assignments.wf(),
    {
        self.status =
        match outcome {
            Ok(()) => text4("Assigned ", monitor, " -> ", project_dir),
            Err(e) => text2("Assigned locally, but couldn't reach render-server: ", e.as_str()),
        };
    }

    /// Takes in whether the start at login could be switched. Where it could
    /// not, the editor shows what is the case.
    pub fn autostart_switched(
        &mut self,
        wanted: bool,
        outcome: &Result<(), String>,
        is_enabled: bool,
    )
        ensures
            final(self)@ == old(self)@.with_autostart(wanted, *outcome, is_enabled),
            old(self).assignments.wf() ==> final(self).assignments.wf(),
    {
        match outcome {
            Ok(()) => {
                self.autostart_enabled = wanted;
            },
            Err(e) => {
                self.autostart_enabled = is_enabled;
                self.status = text2("Failed to update autostart: ", e.as_str());
            },
        }
    }

    // --- Deleting ----------------------------------------------------------

    /// What the wallpaper in a directory is called: by its entry, or else by
    /// the directory.
    pub fn wallpaper_name(&self, dir: &str) -> (r: String)
        ensures
            r@ == name_in_library(self@.library, dir@),
    {
        let ghost all = self@.library;
        let wanted = dir.to_string();
        let mut i: usize = 0;
        assert(all.skip(0) =~= all);
        while i < self.library.len()
            invariant
                all == self@.library,
                all.len() == self.library@.len(),
                wanted@ == dir@,
                i <= self.library@.len(),
                name_in_library(all.skip(i as int), dir@) == name_in_library(all, dir@),
            decreases self.library.len() - i,
        {
            assert(all.skip(i as int)[0] == self.library@[i as int]@);
            assert(all.skip(i as int).skip(1) =~= all.skip(i as int + 1));
            if self.library[i].dir == wanted {
                return self.library[i].display_name();
            }
            i += 1;
        }
        assert(all.skip(i as int).len() == 0);
        wanted
    }

    /// What the user is asked before a wallpaper is deleted.
    pub fn delete_question(&self, dir: &str) -> (r: String)
        ensures
            r@ == "\""@ + name_in_library(self@.library, dir@)
                + "\" will be permanently deleted from disk. This can't be undone."@,
    {
        text3(
            "\"",
            self.wallpaper_name(dir).as_str(),
            "\" will be permanently deleted from disk. This can't be undone.",
        )
    }

    /// Takes in whether a wallpaper could be deleted. Says whether the library
    /// has to be looked through again.
    pub fn deleted(&mut self, dir: &str, outcome: &Result<(), String>) -> (rescan: bool)
        ensures
            rescan == (outcome is Ok),
            final(self)@ == old(self)@.with_deleted(dir@, *outcome),
            old(self).assignments.wf() ==> final(self).assignments.wf(),
    {
        self.delete_overlay = None;
        match outcome {
            Ok(()) => {
                self.status = text2("Deleted ", dir);
                true
            },
            Err(e) => {
                self.status = text4("Failed to delete ", dir, ": ", e.as_str());
                false
            },
        }
    }

    // --- The open project --------------------------------------------------

    /// Begins a new project.
    pub fn new_project(&mut self)
        ensures
            final(self)@ == old(self)@.with_new_project(),
            old(self).assignments.wf() ==> final(self).assignments.wf(),
    {
        self.draft = Draft::new();
        self.status = String::new();
        assert(self@.status =~= seq![]);
    }

    /// Opens a wallpaper of the library in the editor, by what loading it
    /// gave: its layers, rate and description. Where it could not be loaded,
    /// what is open stays open.
    pub fn open_library_entry(
        &mut self,
        entry: &LibraryEntry,
        opened: Result<(Vec<EditorLayer>, u32, String), String>,
    )
        ensures
            final(self)@ == old(self)@.with_opened(entry@, opened),
            old(self).assignments.wf() ==> final(self).assignments.wf(),
    {
        match opened {
            Ok((layers, fps, description)) => {
                self.draft = Draft {
                    layers,
                    selected: None,
                    selected_effect: None,
                    fps,
                    id: Some(entry.id.clone()),
                    name: entry.name.clone(),
                    description,
                };
                self.status = text2("Opened ", entry.dir.as_str());
                self.tab = Tab::Editor;
            },
            Err(e) => {
                self.status =
                text4("Failed to open ", entry.dir.as_str(), ": ", e.as_str());
            },
        }
    }

    /// Under which name the open project is saved: its own, or a fresh one.
    pub fn save_id(&self, fresh: String) -> (r: String)
        ensures
            r@ == self@.saved_as(fresh@),
    {
        match &self.draft.id {
            Some(id) => id.clone(),
            None => fresh,
        }
    }

    /// Takes in whether the open project could be saved. Says whether its
    /// commands may run from now on: the user has written them.
    pub fn saved(&mut self, id: String, dir: &str, outcome: &Result<(), String>) -> (trust: bool)
        ensures
            trust == old(self)@.earns_trust(*outcome),
            final(self)@ == old(self)@.with_saved(id@, dir@, *outcome),
            old(self).assignments.wf() ==> final(self).assignments.wf(),
    {
        match outcome {
            Ok(()) => {
                let trust = self.draft.has_command_layer();
                self.draft.id = Some(id);
                self.status = text2("Saved to ", dir);
                trust
            },
            Err(e) => {
                self.status = text2("Failed to save: ", e.as_str());
                false
            },
        }
    }
}

/// What the wallpaper in a directory is called.
pub open spec fn name_in_library(
    library: Seq<crate::library::LibraryEntryModel>,
    dir: Seq<char>,
) -> Seq<char>
    decreases library.len(),
{
    if library.len() == 0 {
        dir
    } else if library[0].dir == dir {
        library[0].shown_name()
    } else {
        name_in_library(library.skip(1), dir)
    }
}


// --- Laws ------------------------------------------------------------------

/// Every monitor with a name is listed, with the size that it was seen with
/// first.
pub proof fn every_monitor_is_listed(seen: Seq<(Option<String>, u32, u32)>, k: int) -> (at: int)
    requires
        0 <= k < seen.len(),
        seen[k].0 is Some,
    ensures
        0 <= at < named_monitors(seen).len(),
        named_monitors(seen)[at].name == seen[k].0->0@,
        (forall|j: int|
            0 <= j < k && (#[trigger] seen[j]).0 is Some ==> seen[j].0->0@ != seen[k].0->0@)
            ==> named_monitors(seen)[at].width == seen[k].1 && named_monitors(seen)[at].height
            == seen[k].2,
    decreases seen.len(),
{
    let rest = named_monitors(seen.drop_last());
    let name = seen[k].0->0@;
    if k < seen.len() - 1 {
        assert(seen.drop_last()[k] == seen[k]);
        let at = every_monitor_is_listed(seen.drop_last(), k);
        if forall|j: int|
            0 <= j < k && (#[trigger] seen[j]).0 is Some ==> seen[j].0->0@ != seen[k].0->0@ {
            assert forall|j: int| 0 <= j < k && (#[trigger] seen.drop_last()[j]).0 is Some implies
                seen.drop_last()[j].0->0@ != seen[k].0->0@ by {
                assert(seen.drop_last()[j] == seen[j]);
            }
        }
        at
    } else if has_monitor(rest, name) {
        let at = choose|i: int| 0 <= i < rest.len() && (#[trigger] rest[i]).name == name;
        if forall|j: int|
            0 <= j < k && (#[trigger] seen[j]).0 is Some ==> seen[j].0->0@ != seen[k].0->0@ {
            let j = listed_monitor_was_seen(seen.drop_last(), at);
            assert(seen.drop_last()[j] == seen[j]);
        }
        at
    } else {
        rest.len() as int
    }
}

/// A monitor that is listed was seen under its name.
pub proof fn listed_monitor_was_seen(seen: Seq<(Option<String>, u32, u32)>, at: int) -> (k: int)
    requires
        0 <= at < named_monitors(seen).len(),
    ensures
        0 <= k < seen.len(),
        seen[k].0 is Some,
        named_monitors(seen)[at].name == seen[k].0->0@,
        named_monitors(seen)[at].width == seen[k].1,
        named_monitors(seen)[at].height == seen[k].2,
    decreases seen.len(),
{
    let rest = named_monitors(seen.drop_last());
    if at < rest.len() {
        let k = listed_monitor_was_seen(seen.drop_last(), at);
        assert(seen.drop_last()[k] == seen[k]);
        k
    } else {
        seen.len() - 1
    }
}

/// A wallpaper is called as its entry is; one that has none, by its directory.
pub proof fn wallpaper_is_called_by_its_entry(
    library: Seq<crate::library::LibraryEntryModel>,
    dir: Seq<char>,
)
    ensures
        (forall|i: int| 0 <= i < library.len() ==> (#[trigger] library[i]).dir != dir)
            ==> name_in_library(library, dir) == dir,
        forall|i: int|
            0 <= i < library.len() && (#[trigger] library[i]).dir == dir && (forall|j: int|
                0 <= j < i ==> (#[trigger] library[j]).dir != dir) ==> name_in_library(
                library,
                dir,
            ) == library[i].shown_name(),
    decreases library.len(),
{
    if library.len() > 0 {
        let rest = library.skip(1);
        wallpaper_is_called_by_its_entry(rest, dir);
        if forall|i: int| 0 <= i < library.len() ==> (#[trigger] library[i]).dir != dir {
            assert forall|i: int| 0 <= i < rest.len() implies (#[trigger] rest[i]).dir != dir by {
                assert(rest[i] == library[i + 1]);
            }
        }
        assert forall|i: int|
            0 <= i < library.len() && (#[trigger] library[i]).dir == dir && (forall|j: int|
                0 <= j < i ==> (#[trigger] library[j]).dir != dir) implies name_in_library(
            library,
            dir,
        ) == library[i].shown_name() by {
            if i > 0 {
                assert(library[0].dir != dir);
                assert(rest[i - 1] == library[i]);
                assert forall|j: int| 0 <= j < i - 1 implies (#[trigger] rest[j]).dir != dir by {
                    assert(rest[j] == library[j + 1]);
                }
            }
        }
    }
}

/// A shader of the library is shown by its name there, and any other by the
/// name of its file.
pub proof fn shader_is_shown_by_its_name(
    entries: Seq<(Seq<char>, Seq<char>)>,
    path: Seq<char>,
)
    ensures
        (forall|i: int| 0 <= i < entries.len() ==> (#[trigger] entries[i]).1 != path) ==> (
        crate::paths::file_name_of(path) matches Some(name) ==> shader_shown(entries, Some(path))
            == name),
        forall|i: int|
            0 <= i < entries.len() && (#[trigger] entries[i]).1 == path && (forall|j: int|
                0 <= j < i ==> (#[trigger] entries[j]).1 != path) ==> shader_shown(
                entries,
                Some(path),
            ) == entries[i].0,
        shader_shown(entries, None) == "Select..."@,
    decreases entries.len(),
{
    if entries.len() > 0 {
        let rest = entries.skip(1);
        shader_is_shown_by_its_name(rest, path);
        if forall|i: int| 0 <= i < entries.len() ==> (#[trigger] entries[i]).1 != path {
            assert forall|i: int| 0 <= i < rest.len() implies (#[trigger] rest[i]).1 != path by {
                assert(rest[i] == entries[i + 1]);
            }
        }
        assert forall|i: int|
            0 <= i < entries.len() && (#[trigger] entries[i]).1 == path && (forall|j: int|
                0 <= j < i ==> (#[trigger] entries[j]).1 != path) implies shader_shown(
            entries,
            Some(path),
        ) == entries[i].0 by {
            if i > 0 {
                assert(entries[0].1 != path);
                assert(rest[i - 1] == entries[i]);
                assert forall|j: int| 0 <= j < i - 1 implies (#[trigger] rest[j]).1 != path by {
                    assert(rest[j] == entries[j + 1]);
                }
            }
        }
    }
}

/// An opened wallpaper is the open project: its layers, its rate and its
/// description, with nothing selected, in the tab that edits it. Saved, it goes
/// where it was. One that could not be loaded leaves what is open as it is.
pub proof fn opened_wallpaper_is_edited(
    app: AppModel,
    entry: crate::library::LibraryEntryModel,
    opened: Result<(Vec<EditorLayer>, u32, String), String>,
    fresh: Seq<char>,
)
    ensures
        ({
            let after = app.with_opened(entry, opened);
            &&& opened matches Ok((layers, fps, description)) ==> {
                &&& after.tab is Editor
                &&& after.draft.layers == crate::editor::editor_view(layers@)
                &&& after.draft.fps == fps && after.draft.description == description@
                &&& after.draft.name == entry.name
                &&& after.draft.selected is None && after.draft.selected_effect is None
                &&& after.saved_as(fresh) == entry.id
            }
            &&& opened is Err ==> after.draft == app.draft && after.tab == app.tab
            &&& after.assignments == app.assignments && after.library == app.library
        }),
{
}

/// A saved project is the same, and from then on goes where it went; one that
/// could not be saved does not change. Its commands may run once it is saved,
/// where it has any.
pub proof fn saved_project_keeps_its_place(
    app: AppModel,
    id: Seq<char>,
    dir: Seq<char>,
    outcome: Result<(), String>,
    fresh: Seq<char>,
)
    ensures
        ({
            let after = app.with_saved(id, dir, outcome);
            &&& after.draft.layers == app.draft.layers && after.draft.name == app.draft.name
            &&& after.draft.fps == app.draft.fps && after.draft.description
                == app.draft.description
            &&& after.draft.selected == app.draft.selected
            &&& outcome is Ok ==> after.saved_as(fresh) == id
            &&& outcome is Err ==> after.draft == app.draft
            &&& app.earns_trust(outcome) ==> outcome is Ok && exists|i: int|
                0 <= i < app.draft.layers.len() && crate::draft::layer_runs_command(
                    #[trigger] app.draft.layers[i],
                )
            &&& after.tab == app.tab && after.assignments == app.assignments
        }),
        app.draft.id is None ==> app.saved_as(fresh) == fresh,
        app.draft.id matches Some(own) ==> app.saved_as(fresh) == own,
        outcome is Ok && (exists|i: int|
            0 <= i < app.draft.layers.len() && crate::draft::layer_runs_command(
                #[trigger] app.draft.layers[i],
            )) ==> app.earns_trust(outcome),
{
}

/// An assignment gives the monitor the project, and every other monitor keeps
/// its own; what could not be written or passed on is said, and undone by
/// nothing.
pub proof fn assignment_is_for_its_monitor(
    app: AppModel,
    monitor: Seq<char>,
    project_dir: Seq<char>,
    other: Seq<char>,
    outcome: Result<(), String>,
)
    ensures
        ({
            let after = app.with_assignment(monitor, project_dir);
            &&& after.assignments.dom().contains(monitor) && after.assignments[monitor]
                == project_dir
            &&& other != monitor ==> after.assignments.dom().contains(other)
                == app.assignments.dom().contains(other) && after.assignments[other]
                == app.assignments[other]
            &&& after.draft == app.draft && after.library == app.library
        }),
        app.with_assignment_saved(outcome).assignments == app.assignments,
        app.with_assignment_saved(outcome).draft == app.draft,
        outcome is Ok ==> app.with_assignment_saved(outcome) == app,
        outcome is Err ==> app.with_assignment_saved(outcome).status.len() > 0,
        app.with_assignment_pushed(monitor, project_dir, outcome).assignments == app.assignments,
        app.with_assignment_pushed(monitor, project_dir, outcome).draft == app.draft,
{
    reveal_strlit("Failed to save monitor assignment: ");
}

/// A wallpaper is asked about once, whether or not it could be deleted; nothing
/// that is open changes. Switching the start at login shows what is the case.
pub proof fn deleting_and_switching_show_what_is(
    app: AppModel,
    dir: Seq<char>,
    wanted: bool,
    is_enabled: bool,
    outcome: Result<(), String>,
)
    ensures
        app.with_deleted(dir, outcome).delete_overlay is None,
        app.with_deleted(dir, outcome).draft == app.draft,
        app.with_deleted(dir, outcome).assignments == app.assignments,
        app.with_deleted(dir, outcome).library == app.library,
        outcome is Ok ==> app.with_autostart(wanted, outcome, is_enabled).autostart_enabled
            == wanted,
        outcome is Err ==> app.with_autostart(wanted, outcome, is_enabled).autostart_enabled
            == is_enabled,
        app.with_autostart(wanted, outcome, is_enabled).draft == app.draft,
{
}

/// The library is looked through again when the wallpapers come into view, and
/// not while they stay there.
pub proof fn wallpapers_are_looked_through_once(app: AppModel)
    ensures
        app.tab is Wallpapers && !(app.previous_tab is Wallpapers) ==> app.wallpapers_come_back(),
        !(app.tab is Wallpapers) ==> !app.wallpapers_come_back(),
        !app.with_tab_settled().wallpapers_come_back(),
        app.with_tab_settled().tab == app.tab,
        app.with_tab_settled().draft == app.draft,
{
}

/// A new project has nothing in it, and is saved under a fresh name.
pub proof fn new_project_is_blank(app: AppModel, fresh: Seq<char>)
    ensures
        app.with_new_project().draft.layers.len() == 0,
        app.with_new_project().draft.selected is None,
        app.with_new_project().saved_as(fresh) == fresh,
        app.with_new_project().draft.name.len() == 0,
        app.with_new_project().assignments == app.assignments,
{
}


/// What the status line says of each thing that succeeded or failed: what it
/// was about, and why it failed.
pub proof fn status_says_what_happened(
    app: AppModel,
    monitor: Seq<char>,
    dir: Seq<char>,
    id: Seq<char>,
    entry: crate::library::LibraryEntryModel,
    opened: (Vec<EditorLayer>, u32, String),
    why: String,
)
    ensures
        app.with_assignment_saved(Err(why)).status == "Failed to save monitor assignment: "@ + why@,
        app.with_assignment_pushed(monitor, dir, Ok(())).status == "Assigned "@ + monitor + " -> "@
            + dir,
        app.with_assignment_pushed(monitor, dir, Err(why)).status
            == "Assigned locally, but couldn't reach render-server: "@ + why@,
        app.with_autostart(true, Err(why), false).status == "Failed to update autostart: "@ + why@,
        app.with_autostart(true, Ok(()), false).status == app.status,
        app.with_deleted(dir, Ok(())).status == "Deleted "@ + dir,
        app.with_deleted(dir, Err(why)).status == "Failed to delete "@ + dir + ": "@ + why@,
        app.with_opened(entry, Ok(opened)).status == "Opened "@ + entry.dir,
        app.with_opened(entry, Err(why)).status == "Failed to open "@ + entry.dir + ": "@ + why@,
        app.with_saved(id, dir, Ok(())).status == "Saved to "@ + dir,
        app.with_saved(id, dir, Err(why)).status == "Failed to save: "@ + why@,
        app.with_new_project().status.len() == 0,
{
}

} // verus!
