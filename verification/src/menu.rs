//! The top-level screens and the main menu.
//!
//! The dispatcher around the library keeps one [`AppState`] saying which
//! screen is live, and drives this menu while it shows the main screen.

use vstd::prelude::*;

verus! {

/// Which screen of the application is live.
#[derive(Clone, Copy, PartialEq, Eq, Structural, Debug)]
pub enum AppState {
    MainMenu,
    MusicPlayer,
    VideoPlayer,
    FileTools,
    ComingSoon,
}

/// One entry of the main menu.
#[derive(Clone, Copy, PartialEq, Eq, Structural, Debug)]
pub enum MenuItem {
    MusicPlayer,
    VideoPlayer,
    FileTools,
    ComingSoon,
    Quit,
}

/// The five menu entries, in the order they are shown.
pub open spec fn menu_items_view() -> Seq<MenuItem> {
    seq![
        MenuItem::MusicPlayer,
        MenuItem::VideoPlayer,
        MenuItem::FileTools,
        MenuItem::ComingSoon,
        MenuItem::Quit,
    ]
}

/// The main menu: its entries, and which one is selected.
pub struct MainMenu {
    pub menu_items: Vec<MenuItem>,
    pub selected_item: MenuItem,
    pub index: usize,
}

/// A well-formed menu holds the five entries and selects the one its
/// index points at.
pub open spec fn menu_wf(m: MainMenu) -> bool {
    &&& m.menu_items@ == menu_items_view()
    &&& m.index < 5
    &&& m.selected_item == menu_items_view()[m.index as int]
}

/// The title shown for a menu entry.
pub open spec fn menu_title(item: MenuItem) -> Seq<char> {
    match item {
        MenuItem::MusicPlayer => "🎵 Music Player"@,
        MenuItem::VideoPlayer => "🎥 Video Player"@,
        MenuItem::FileTools => "📁 File Tools"@,
        MenuItem::ComingSoon => "🧪 Coming Soon"@,
        MenuItem::Quit => "❌ Quit"@,
    }
}

/// The description shown for a menu entry.
pub open spec fn menu_description(item: MenuItem) -> Seq<char> {
    match item {
        MenuItem::MusicPlayer => "Listen to curated or local playlists"@,
        MenuItem::VideoPlayer => "Watch videos in terminal (mpv-based)"@,
        MenuItem::FileTools => "Future toolkit: rename, organize, compress"@,
        MenuItem::ComingSoon => "Markdown viewer, API tester, YouTube DL?"@,
        MenuItem::Quit => "Exit the application"@,
    }
}

impl MainMenu {
    /// A fresh menu with the first entry selected.
    pub fn new() -> (r: Self)
        ensures
            menu_wf(r),
            r.index == 0,
            r.selected_item == MenuItem::MusicPlayer,
    {
        let mut menu_items: Vec<MenuItem> = Vec::new();
        menu_items.push(MenuItem::MusicPlayer);
        menu_items.push(MenuItem::VideoPlayer);
        menu_items.push(MenuItem::FileTools);
        menu_items.push(MenuItem::ComingSoon);
        menu_items.push(MenuItem::Quit);
        let r = MainMenu { menu_items, selected_item: MenuItem::MusicPlayer, index: 0 };
        proof {
            assert(r.menu_items@ =~= menu_items_view());
        }
        r
    }

    /// Moves the selection one entry down, wrapping past the last.
    pub fn next(&mut self)
        requires
            menu_wf(*old(self)),
        ensures
            menu_wf(*final(self)),
            final(self).index as int == (old(self).index + 1) % 5,
            final(self).selected_item == menu_items_view()[final(self).index as int],
            final(self).menu_items == old(self).menu_items,
    {
        self.index = (self.index + 1) % self.menu_items.len();
        self.selected_item = self.menu_items[self.index];
    }

    /// Moves the selection one entry up, wrapping past the first.
    pub fn previous(&mut self)
        requires
            menu_wf(*old(self)),
        ensures
            menu_wf(*final(self)),
            final(self).index as int == if old(self).index > 0 {
                old(self).index - 1
            } else {
                4int
            },
            final(self).selected_item == menu_items_view()[final(self).index as int],
            final(self).menu_items == old(self).menu_items,
    {
        if self.index > 0 {
            self.index = self.index - 1;
        } else {
            self.index = self.menu_items.len() - 1;
        }
        self.selected_item = self.menu_items[self.index];
    }

    /// The title shown for a menu entry.
    pub fn get_menu_title(&self, item: MenuItem) -> (r: String)
        ensures
            r@ == menu_title(item),
    {
        match item {
            MenuItem::MusicPlayer => "🎵 Music Player".to_owned(),
            MenuItem::VideoPlayer => "🎥 Video Player".to_owned(),
            MenuItem::FileTools => "📁 File Tools".to_owned(),
            MenuItem::ComingSoon => "🧪 Coming Soon".to_owned(),
            MenuItem::Quit => "❌ Quit".to_owned(),
        }
    }

    /// The description shown for a menu entry.
    pub fn get_menu_description(&self, item: MenuItem) -> (r: String)
        ensures
            r@ == menu_description(item),
    {
        match item {
            MenuItem::MusicPlayer => "Listen to curated or local playlists".to_owned(),
            MenuItem::VideoPlayer => "Watch videos in terminal (mpv-based)".to_owned(),
            MenuItem::FileTools => "Future toolkit: rename, organize, compress".to_owned(),
            MenuItem::ComingSoon => "Markdown viewer, API tester, YouTube DL?".to_owned(),
            MenuItem::Quit => "Exit the application".to_owned(),
        }
    }
}

} // verus!
