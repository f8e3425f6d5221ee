//! The rectangle that the user selects on the screen with the mouse, and
//! the edits of its corners. Coordinates are of a type `C` that the caller
//! chooses; this module only moves them around, never computes with them.
use vstd::prelude::*;

verus! {

/// A point.
#[derive(Clone, Copy)]
pub struct Point<C> {
    pub x: C,
    pub y: C,
}

/// A rectangle given by two opposite corners `(x0, y0)` and `(x1, y1)`.
#[derive(Clone, Copy)]
pub struct Rect<C> {
    pub x0: C,
    pub y0: C,
    pub x1: C,
    pub y1: C,
}

/// The corner of the selection that the user is dragging.
#[derive(Clone, Copy, PartialEq, Eq, Structural, Debug)]
pub enum DragHandle {
    TopLeft,
    TopRight,
    BottomLeft,
    BottomRight,
}

/// The selection: its two corners in screen coordinates (`start_position`,
/// `end_position`) and in the coordinates of the drawing window
/// (`..._to_display`), the rectangle drawn, and the modes of the drawing
/// window.
#[derive(Clone, Copy)]
pub struct Selection<C> {
    pub is_selecting: bool,
    pub start_position: Option<Point<C>>,
    pub end_position: Option<Point<C>>,
    pub start_position_to_display: Option<Point<C>>,
    pub end_position_to_display: Option<Point<C>>,
    pub modify: bool,
    pub is_dragging: bool,
    pub rect: Rect<C>,
    pub where_dragging: Option<DragHandle>,
    pub hide_buttons: bool,
    pub capture_screen: bool,
    /// The rectangle that a new selection starts from.
    pub empty_rect: Rect<C>,
}

impl<C: Copy> Selection<C> {
    /// A corner known in screen coordinates is also known in window
    /// coordinates.
    pub open spec fn wf(&self) -> bool {
        &&& self.start_position is Some ==> self.start_position_to_display is Some
        &&& self.end_position is Some ==> self.end_position_to_display is Some
    }

    /// No selection yet, buttons shown, the rectangle at `empty_rect`.
    pub open spec fn fresh(empty_rect: Rect<C>) -> Selection<C> {
        Selection {
            is_selecting: false,
            start_position: None,
            end_position: None,
            start_position_to_display: None,
            end_position_to_display: None,
            modify: false,
            is_dragging: false,
            rect: empty_rect,
            where_dragging: None,
            hide_buttons: false,
            capture_screen: false,
            empty_rect,
        }
    }

    /// No selection yet, buttons shown, the rectangle at `empty_rect`.
    pub fn new(empty_rect: Rect<C>) -> (s: Selection<C>)
        ensures
            s.wf(),
            s == Self::fresh(empty_rect),
    {
        Selection {
            is_selecting: false,
            start_position: None,
            end_position: None,
            start_position_to_display: None,
            end_position_to_display: None,
            modify: false,
            is_dragging: false,
            rect: empty_rect,
            where_dragging: None,
            hide_buttons: false,
            capture_screen: false,
            empty_rect,
        }
    }

    /// Both corners, in screen coordinates, when both are known.
    pub fn selected_corners(&self) -> (r: Option<(Point<C>, Point<C>)>)
        ensures
            r == (match (self.start_position, self.end_position) {
                (Some(a), Some(b)) => Some((a, b)),
                _ => None,
            }),
    {
        match (self.start_position, self.end_position) {
            (Some(a), Some(b)) => Some((a, b)),
            _ => None,
        }
    }

    /// The rectangle to draw, in window coordinates: shown while a
    /// selection with both corners is being made or edited.
    pub fn rect_to_paint(&self) -> (r: Option<(Point<C>, Point<C>)>)
        requires
            self.wf(),
        ensures
            r == (if self.start_position is Some && self.end_position is Some && self.is_selecting {
                Some((self.start_position_to_display->0, self.end_position_to_display->0))
            } else {
                None
            }),
    {
        if self.start_position.is_some() && self.end_position.is_some() && self.is_selecting {
            match (self.start_position_to_display, self.end_position_to_display) {
                (Some(a), Some(b)) => Some((a, b)),
                _ => None,
            }
        } else {
            None
        }
    }

    /// Whether the window must be painted again after an update: while a
    /// corner is being dragged.
    pub fn needs_repaint(&self) -> (r: bool)
        ensures
            r == (self.is_dragging && self.is_selecting),
    {
        self.is_dragging && self.is_selecting
    }
}

/// Moves the dragged corner of the selection to the mouse: `pos` in screen
/// coordinates, `mouse_pos` in window coordinates. Moving a bottom-left or
/// top-right corner changes one coordinate of each known corner.
pub fn edit_rect<C: Copy>(
    handle: &DragHandle,
    pos: Point<C>,
    data: &mut Selection<C>,
    mouse_pos: Point<C>,
)
    requires
        old(data).wf(),
        (*handle == DragHandle::BottomLeft || *handle == DragHandle::TopRight) ==> {
            &&& old(data).start_position is Some
            &&& old(data).end_position is Some
        },
    ensures
        final(data).wf(),
        *final(data) == edited(*old(data), *handle, pos, mouse_pos),
{
    match handle {
        DragHandle::TopLeft => {
            data.rect.x0 = mouse_pos.x;
            data.rect.y0 = mouse_pos.y;
            let coord = Point { x: pos.x, y: pos.y };
            data.start_position_to_display = Some(Point { x: mouse_pos.x, y: mouse_pos.y });
            data.start_position = Some(coord);
            data.is_selecting = true;
        },
        DragHandle::BottomRight => {
            data.rect.x1 = mouse_pos.x;
            data.rect.y1 = mouse_pos.y;
            let coord = Point { x: pos.x, y: pos.y };
            data.end_position_to_display = Some(Point { x: mouse_pos.x, y: mouse_pos.y });
            data.end_position = Some(coord);
            data.is_selecting = true;
        },
        DragHandle::BottomLeft => {
            data.rect.x0 = mouse_pos.x;
            data.rect.y1 = mouse_pos.y;
            let end = data.end_position.unwrap();
            let end_display = data.end_position_to_display.unwrap();
            let coord = Point { x: end.x, y: pos.y };
            data.end_position_to_display = Some(Point { x: end_display.x, y: mouse_pos.y });
            data.end_position = Some(coord);
            let start = data.start_position.unwrap();
            let start_display = data.start_position_to_display.unwrap();
            let coord = Point { x: pos.x, y: start.y };
            data.start_position_to_display = Some(Point { x: data.rect.x0, y: start_display.y });
            data.start_position = Some(coord);
            data.is_selecting = true;
        },
        DragHandle::TopRight => {
            data.rect.x1 = mouse_pos.x;
            data.rect.y0 = mouse_pos.y;
            let end = data.end_position.unwrap();
            let end_display = data.end_position_to_display.unwrap();
            let coord = Point { x: pos.x, y: end.y };
            data.end_position_to_display = Some(Point { x: mouse_pos.x, y: end_display.y });
            data.end_position = Some(coord);
            let start = data.start_position.unwrap();
            let start_display = data.start_position_to_display.unwrap();
            let coord = Point { x: start.x, y: pos.y };
            data.start_position_to_display = Some(Point { x: start_display.x, y: data.rect.y0 });
            data.start_position = Some(coord);
            data.is_selecting = true;
        },
    }
}


/// What a mouse release asks of the window.
#[derive(Clone, Copy)]
pub struct MouseUpEffects<C> {
    /// Stop delivering the mouse to the dragged corner.
    pub release_active: bool,
    /// Set the drawn rectangle to the one spanned by these two corners.
    pub rect_corners: Option<(Point<C>, Point<C>)>,
}

impl<C: Copy> Selection<C> {
    /// Forgets both corners and leaves the edit mode, as a click does once a
    /// selection has been made and is not being edited.
    pub open spec fn reset_after_selection(self) -> Selection<C> {
        Selection {
            start_position: None,
            end_position: None,
            start_position_to_display: None,
            end_position_to_display: None,
            is_selecting: false,
            is_dragging: false,
            modify: false,
            ..self
        }
    }

    /// What a mouse press does. `screen_pos` and `display_pos` are where it
    /// happened; `near_handle` is the corner of the drawn rectangle that it
    /// is close to, if any. Returns whether the window must capture the
    /// mouse for dragging that corner.
    pub open spec fn after_mouse_down(
        self,
        left_button: bool,
        screen_pos: Point<C>,
        display_pos: Point<C>,
        near_handle: Option<DragHandle>,
    ) -> (Selection<C>, bool) {
        let s1 = if self.modify && !self.is_dragging {
            self.reset_after_selection()
        } else {
            self
        };
        let s2 = if !s1.modify && !s1.is_dragging && left_button {
            Selection {
                start_position: Some(screen_pos),
                end_position: None,
                start_position_to_display: Some(display_pos),
                is_selecting: true,
                ..s1
            }
        } else {
            s1
        };
        if s2.is_dragging {
            match near_handle {
                Some(h) => (Selection { where_dragging: Some(h), is_selecting: true, ..s2 }, true),
                None => (Selection { hide_buttons: false, is_selecting: true, ..s2 }, false),
            }
        } else {
            (s2, false)
        }
    }

    pub fn mouse_down(
        &mut self,
        left_button: bool,
        screen_pos: Point<C>,
        display_pos: Point<C>,
        near_handle: Option<DragHandle>,
    ) -> (grab: bool)
        requires
            old(self).wf(),
        ensures
            final(self).wf(),
            (*final(self), grab) == old(self).after_mouse_down(
                left_button,
                screen_pos,
                display_pos,
                near_handle,
            ),
    {
        let mut grab = false;
        if self.modify && !self.is_dragging {
            self.start_position = None;
            self.end_position = None;
            self.start_position_to_display = None;
            self.end_position_to_display = None;
            self.is_selecting = false;
            self.is_dragging = false;
            self.modify = false;
        }
        if !self.modify && !self.is_dragging {
            if left_button {
                self.start_position = None;
                self.end_position = None;
                self.start_position_to_display = Some(display_pos);
                self.start_position = Some(screen_pos);
                self.is_selecting = true;
            }
        }
        if self.is_dragging {
            match near_handle {
                Some(h) => {
                    self.where_dragging = Some(h);
                    grab = true;
                },
                None => {
                    self.hide_buttons = false;
                },
            }
            self.is_selecting = true;
        }
        grab
    }

    /// What a mouse move does: with the mouse not captured and no corner
    /// being edited, the move sets the end corner; with the mouse captured,
    /// it moves the corner being dragged. The result says whether the window
    /// must be painted again.
    pub open spec fn after_mouse_move(
        self,
        active: bool,
        screen_pos: Point<C>,
        display_pos: Point<C>,
    ) -> (Selection<C>, bool) {
        let s1 = if !active && !self.is_dragging {
            Selection {
                end_position_to_display: Some(display_pos),
                end_position: Some(screen_pos),
                ..self
            }
        } else {
            self
        };
        let dragged = active && s1.where_dragging is Some;
        let s2 = if dragged {
            edited(s1, s1.where_dragging->0, screen_pos, display_pos)
        } else {
            s1
        };
        (s2, dragged || !s2.modify)
    }

    pub fn mouse_move(&mut self, active: bool, screen_pos: Point<C>, display_pos: Point<C>) -> (repaint: bool)
        requires
            old(self).wf(),
            active ==> match old(self).where_dragging {
                Some(DragHandle::BottomLeft) | Some(DragHandle::TopRight) => {
                    &&& old(self).start_position is Some
                    &&& old(self).end_position is Some
                },
                _ => true,
            },
        ensures
            final(self).wf(),
            (*final(self), repaint) == old(self).after_mouse_move(active, screen_pos, display_pos),
    {
        let mut repaint = false;
        if !active && !self.is_dragging {
            self.end_position_to_display = Some(display_pos);
            self.end_position = Some(screen_pos);
        }
        if active {
            if let Some(handle) = self.where_dragging {
                edit_rect(&handle, screen_pos, self, display_pos);
                repaint = true;
            }
        }
        if !self.modify {
            repaint = true;
        }
        repaint
    }

    /// What a mouse release does. `before_start` says whether the release
    /// point lies left of and above the start corner (both coordinates
    /// smaller); then the two corners swap roles. `rect_from_display` says
    /// whether the drawn rectangle follows the window coordinates of the
    /// corners (else their screen coordinates).
    pub open spec fn after_mouse_up(
        self,
        left_button: bool,
        screen_pos: Point<C>,
        display_pos: Point<C>,
        before_start: bool,
        rect_from_display: bool,
    ) -> (Selection<C>, MouseUpEffects<C>) {
        let s1 = if self.is_dragging {
            Selection { where_dragging: None, is_selecting: true, ..self }
        } else {
            self
        };
        if !s1.modify && !s1.is_dragging {
            if left_button {
                let s2 = if before_start {
                    Selection {
                        is_selecting: false,
                        modify: true,
                        start_position: Some(screen_pos),
                        end_position: s1.start_position,
                        start_position_to_display: Some(display_pos),
                        end_position_to_display: s1.start_position_to_display,
                        hide_buttons: false,
                        ..s1
                    }
                } else {
                    Selection {
                        is_selecting: false,
                        modify: true,
                        end_position: Some(screen_pos),
                        end_position_to_display: Some(display_pos),
                        hide_buttons: false,
                        ..s1
                    }
                };
                let corners = if rect_from_display {
                    (s2.start_position_to_display->0, s2.end_position_to_display->0)
                } else {
                    (s2.start_position->0, s2.end_position->0)
                };
                (s2, MouseUpEffects { release_active: self.is_dragging, rect_corners: Some(corners) })
            } else {
                (
                    Selection { hide_buttons: false, ..s1 },
                    MouseUpEffects { release_active: self.is_dragging, rect_corners: None },
                )
            }
        } else {
            (s1, MouseUpEffects { release_active: self.is_dragging, rect_corners: None })
        }
    }

    pub fn mouse_up(
        &mut self,
        left_button: bool,
        screen_pos: Point<C>,
        display_pos: Point<C>,
        before_start: bool,
        rect_from_display: bool,
    ) -> (effects: MouseUpEffects<C>)
        requires
            old(self).wf(),
            !old(self).modify && !old(self).is_dragging && left_button
                ==> old(self).start_position is Some,
        ensures
            final(self).wf(),
            (*final(self), effects) == old(self).after_mouse_up(
                left_button,
                screen_pos,
                display_pos,
                before_start,
                rect_from_display,
            ),
    {
        let mut release_active = false;
        let mut rect_corners = None;
        if self.is_dragging {
            self.where_dragging = None;
            release_active = true;
            self.is_selecting = true;
        }
        if !self.modify && !self.is_dragging {
            if left_button {
                self.is_selecting = false;
                self.modify = true;
                self.end_position_to_display = Some(display_pos);
                if before_start {
                    let prov = self.start_position;
                    self.start_position = Some(screen_pos);
                    self.end_position = prov;
                    let prov_display = self.start_position_to_display;
                    self.start_position_to_display = self.end_position_to_display;
                    self.end_position_to_display = prov_display;
                } else {
                    self.end_position = Some(screen_pos);
                }
                if rect_from_display {
                    rect_corners = Some(
                        (
                            self.start_position_to_display.unwrap(),
                            self.end_position_to_display.unwrap(),
                        ),
                    );
                } else {
                    rect_corners = Some((self.start_position.unwrap(), self.end_position.unwrap()));
                }
            }
            self.hide_buttons = false;
        }
        MouseUpEffects { release_active, rect_corners }
    }

    /// Hides the buttons for a new selection, forgetting the corners.
    pub fn start_selection(&mut self)
        ensures
            *final(self) == (Selection {
                hide_buttons: true,
                start_position: None,
                end_position: None,
                start_position_to_display: None,
                end_position_to_display: None,
                is_dragging: false,
                is_selecting: false,
                ..*old(self)
            }),
            final(self).wf(),
    {
        self.hide_buttons = true;
        self.end_position = None;
        self.end_position_to_display = None;
        self.start_position_to_display = None;
        self.start_position = None;
        self.is_dragging = false;
        self.is_selecting = false;
    }

    /// Like `start_selection`, and asks for the whole screen to be captured.
    pub fn request_entire_screen(&mut self)
        ensures
            *final(self) == (Selection {
                hide_buttons: true,
                capture_screen: true,
                start_position: None,
                end_position: None,
                start_position_to_display: None,
                end_position_to_display: None,
                is_dragging: false,
                is_selecting: false,
                ..*old(self)
            }),
            final(self).wf(),
    {
        self.start_selection();
        self.capture_screen = true;
    }

    /// Takes a pending request to capture the whole screen: if there is
    /// one, it is cleared, the buttons come back and the screen corners are
    /// forgotten, and the result is `true`.
    pub fn take_entire_screen_request(&mut self) -> (capture: bool)
        requires
            old(self).wf(),
        ensures
            capture == old(self).capture_screen,
            final(self).wf(),
            *final(self) == (if capture {
                Selection {
                    capture_screen: false,
                    hide_buttons: false,
                    start_position: None,
                    end_position: None,
                    ..*old(self)
                }
            } else {
                *old(self)
            }),
    {
        if self.capture_screen {
            self.capture_screen = false;
            self.hide_buttons = false;
            self.start_position = None;
            self.end_position = None;
            true
        } else {
            false
        }
    }

    /// Enters the edit mode of a selection with two distinct corners;
    /// `corners_differ` says whether the two screen corners differ.
    pub fn begin_edit(&mut self, corners_differ: bool)
        requires
            old(self).wf(),
        ensures
            final(self).wf(),
            *final(self) == (if old(self).start_position is Some && old(self).end_position is Some
                && corners_differ {
                Selection { hide_buttons: true, is_dragging: true, is_selecting: true, ..*old(self) }
            } else {
                *old(self)
            }),
    {
        if self.start_position.is_some() && self.end_position.is_some() && corners_differ {
            self.hide_buttons = true;
            self.is_dragging = true;
            self.is_selecting = true;
        }
    }
}

/// The selection after `edit_rect` moved corner `handle`.
pub open spec fn edited<C>(
    s: Selection<C>,
    handle: DragHandle,
    pos: Point<C>,
    mouse_pos: Point<C>,
) -> Selection<C> {
    match handle {
        DragHandle::TopLeft => Selection {
            rect: Rect { x0: mouse_pos.x, y0: mouse_pos.y, ..s.rect },
            start_position_to_display: Some(mouse_pos),
            start_position: Some(pos),
            is_selecting: true,
            ..s
        },
        DragHandle::BottomRight => Selection {
            rect: Rect { x1: mouse_pos.x, y1: mouse_pos.y, ..s.rect },
            end_position_to_display: Some(mouse_pos),
            end_position: Some(pos),
            is_selecting: true,
            ..s
        },
        DragHandle::BottomLeft => Selection {
            rect: Rect { x0: mouse_pos.x, y1: mouse_pos.y, ..s.rect },
            end_position: Some(Point { x: s.end_position->0.x, y: pos.y }),
            end_position_to_display: Some(Point { x: s.end_position_to_display->0.x, y: mouse_pos.y }),
            start_position: Some(Point { x: pos.x, y: s.start_position->0.y }),
            start_position_to_display: Some(
                Point { x: mouse_pos.x, y: s.start_position_to_display->0.y },
            ),
            is_selecting: true,
            ..s
        },
        DragHandle::TopRight => Selection {
            rect: Rect { x1: mouse_pos.x, y0: mouse_pos.y, ..s.rect },
            end_position: Some(Point { x: pos.x, y: s.end_position->0.y }),
            end_position_to_display: Some(Point { x: mouse_pos.x, y: s.end_position_to_display->0.y }),
            start_position: Some(Point { x: s.start_position->0.x, y: pos.y }),
            start_position_to_display: Some(
                Point { x: s.start_position_to_display->0.x, y: mouse_pos.y },
            ),
            is_selecting: true,
            ..s
        },
    }
}

} // verus!
