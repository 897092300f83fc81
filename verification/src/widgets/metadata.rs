//! A detail panel that is told what to show: a label of the form
//! `system: title`.

use vstd::prelude::*;
use vstd::string::StringExecFns;
use crate::text::{byte_len, byte_length, first_part, join, second_part, split_label};
use crate::tui::{plain_text, DrawOpView, Frame, Rgba, TuiEngine, TuiMetrics};
use crate::ui::widgets::game::{
    details_header, draw_details_header, draw_picture_box, draw_stats_line, picture_box,
    stats_line,
};

verus! {

/// A detail panel in a rectangle of its own.
pub struct MetadataWidget {
    pub x: usize,
    pub y: usize,
    pub w: usize,
    pub h: usize,
}

/// The title that the panel shows for a label: its second piece, or a
/// stand-in where it has none.
pub open spec fn label_title(label: Seq<char>) -> Seq<char> {
    match second_part(label) {
        Some(title) => title,
        None => "UNKNOWN MODULE"@,
    }
}

/// The play count that the panel shows for a label.
pub open spec fn label_play_count(label: Seq<char>) -> nat {
    ((byte_len(label) * 3) % 99) as nat
}

impl MetadataWidget {
    /// The title at double size, and under it the platform and two fixed
    /// lines.
    pub open spec fn facts(&self, label: Seq<char>) -> Seq<DrawOpView> {
        let col = self.x.saturating_add(2);
        let green = Rgba::new(0, 255, 0, 255);
        seq![
            DrawOpView::Text {
                text: label_title(label),
                col,
                row: self.y.saturating_add(2),
                color: Rgba::new(255, 255, 255, 255),
                bg: None,
                scale: 2,
            },
            plain_text("PLATFORM: "@ + first_part(label), col, self.y.saturating_add(5), green),
            plain_text("STATUS:   INSTALLED"@, col, self.y.saturating_add(6), green),
            plain_text("VERSION:  REV 1.0"@, col, self.y.saturating_add(7), green),
        ]
    }

    /// What the panel draws for a label.
    pub open spec fn picture(&self, label: Seq<char>) -> Seq<DrawOpView> {
        (details_header(self.x, self.y, self.w, self.h) + self.facts(label) + picture_box(
            self.x,
            self.y,
            self.w,
            false,
        )).push(stats_line(self.x, self.y, self.h, label_play_count(label)))
    }

    /// A panel in the given rectangle.
    pub fn new(x: usize, y: usize, w: usize, h: usize) -> (panel: Self)
        ensures
            panel == (MetadataWidget { x, y, w, h }),
    {
        Self { x, y, w, h }
    }

    fn draw_facts(&self, frame: &mut Frame, engine: &TuiEngine, selected_item: &str)
        ensures
            final(frame)@ == old(frame)@ + self.facts(selected_item@),
    {
        let col = self.x.saturating_add(2);
        let green = Rgba::new(0, 255, 0, 255);
        let parts = split_label(selected_item);
        let title = match parts.1 {
            Some(title) => title,
            None => String::from_str("UNKNOWN MODULE"),
        };
        engine.draw_string_ex(
            frame,
            title.as_str(),
            col,
            self.y.saturating_add(2),
            Rgba::new(255, 255, 255, 255),
            None,
            2,
        );
        let platform = join("PLATFORM: ", parts.0.as_str());
        engine.draw_string(frame, platform.as_str(), col, self.y.saturating_add(5), green);
        engine.draw_string(frame, "STATUS:   INSTALLED", col, self.y.saturating_add(6), green);
        engine.draw_string(frame, "VERSION:  REV 1.0", col, self.y.saturating_add(7), green);
        assert(frame@ =~= old(frame)@ + self.facts(selected_item@));
    }

    /// Draws the panel for the label `selected_item` on top of what the
    /// frame holds.
    pub fn draw(
        &self,
        frame: &mut Frame,
        engine: &TuiEngine,
        metrics: &TuiMetrics,
        selected_item: &str,
    )
        ensures
            final(frame)@ == old(frame)@ + self.picture(selected_item@),
    {
        draw_details_header(frame, engine, self.x, self.y, self.w, self.h);
        self.draw_facts(frame, engine, selected_item);
        draw_picture_box(frame, engine, self.x, self.y, self.w, false);
        let len = byte_length(selected_item);
        let count = ((len % 99) * 3) % 99;
        assert(count == label_play_count(selected_item@)) by {
            vstd::arithmetic::div_mod::lemma_mul_mod_noop_left(len as int, 3, 99);
        }
        draw_stats_line(frame, engine, self.x, self.y, self.h, count);
        assert(frame@ =~= old(frame)@ + self.picture(selected_item@));
    }
}

} // verus!
