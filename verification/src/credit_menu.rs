//! The credits screen: a wave title over the credit lines and a single
//! back entry.

use crate::game::GameScreen;
use crate::game::GameScreenKind;
use crate::menu::BaseMenu;
use crate::menu::MenuEvent;
use vstd::prelude::*;
use vstd::string::StringExecFns;

verus! {

/// The credits screen.
pub struct CreditMenu {
    pub base: BaseMenu,
}

impl CreditMenu {
    /// Well formed: the base menu is well formed and holds the single
    /// back entry.
    pub open spec fn wf(&self) -> bool {
        &&& self.base.wf()
        &&& self.base.menu_item.num_of_items == 1
    }

    pub fn new() -> (r: CreditMenu)
        ensures
            r.wf(),
            r.base.coords_ok(),
            r.base.menu_item.selected == 0,
            r.base.title.base.text@ == "CREDITS"@,
            r.base.text@.len() == 6,
            r.base.text@[0].text@ == "CODE: WILLI KAPPLER"@,
            r.base.text@[1].text@ == "IDEA: WILLI KAPPLER"@,
            r.base.text@[2].text@ == "LEVELS: WILLI KAPPLER"@,
            r.base.text@[3].text@ == "GFX: WILLI KAPPLER"@,
            r.base.text@[4].text@ == "SFX: WILLI KAPPLER"@,
            r.base.text@[5].text@ == "MUSIC: WILLI KAPPLER"@,
            r.base.menu@[0].base.text@ == "BACK"@,
    {
        let mut lines: Vec<String> = Vec::new();
        lines.push(String::from_str("CODE: WILLI KAPPLER"));
        lines.push(String::from_str("IDEA: WILLI KAPPLER"));
        lines.push(String::from_str("LEVELS: WILLI KAPPLER"));
        lines.push(String::from_str("GFX: WILLI KAPPLER"));
        lines.push(String::from_str("SFX: WILLI KAPPLER"));
        lines.push(String::from_str("MUSIC: WILLI KAPPLER"));
        let mut entries: Vec<String> = Vec::new();
        entries.push(String::from_str("BACK"));
        let base = BaseMenu::new(400, 100, 30, String::from_str("CREDITS"), lines, entries);
        CreditMenu { base }
    }

    /// What one processed event does, relating the states before and
    /// after: confirm returns to the main menu; everything else is
    /// handled by the base menu (with a single entry, the selection
    /// never moves) and leaves the navigation state alone.
    pub open spec fn process_spec(
        pre: CreditMenu,
        post: CreditMenu,
        event: MenuEvent,
        screen0: GameScreen,
        screen1: GameScreen,
    ) -> bool {
        match event {
            MenuEvent::Confirm => post == pre && screen1.current_screen
                == GameScreenKind::MainMenu,
            _ => screen1 == screen0 && post.base.menu_item.selected
                == pre.base.menu_item.selected,
        }
    }

    /// React to one event, as [`CreditMenu::process_spec`] relates the
    /// states before and after the call.
    pub fn process(&mut self, event: &MenuEvent, game_screen: &mut GameScreen)
        requires
            old(self).wf(),
        ensures
            final(self).wf(),
            Self::process_spec(
                *old(self),
                *final(self),
                *event,
                *old(game_screen),
                *final(game_screen),
            ),
    {
        match event {
            MenuEvent::Confirm => {
                game_screen.main_menu();
            },
            _ => {
                self.base.process(event);
            },
        }
    }

    /// Advance the title wave and the active entry's marker by one tick.
    pub fn update(&mut self)
        requires
            old(self).wf(),
        ensures
            final(self).wf(),
            BaseMenu::update_spec(old(self).base, final(self).base),
    {
        self.base.update();
    }

    /// Append the blits of the screen.
    pub fn draw(&self, out: &mut Vec<crate::text_fx::Blit>)
        requires
            self.wf(),
            self.base.coords_ok(),
        ensures
            final(out)@ == old(out)@ + self.base.blits(),
    {
        self.base.draw(out);
    }

    /// Attach the shared font.
    pub fn set_font(&mut self, font: &crate::text_fx::Font)
        requires
            old(self).wf(),
            font.wf(),
            old(self).base.coords_ok(),
            old(self).base.font_fits(*font),
        ensures
            final(self).wf(),
            final(self).base.title.base.font == Some(*font),
    {
        self.base.set_font(font);
    }
}

} // verus!
