//! The camera: from positions in the world to positions in a viewport.
use vstd::prelude::*;
use crate::geometry::{WorldPos, WorldRect, WorldSize};
use crate::{ScreenPos, Viewport};

verus! {

/// The dead zone of a camera that tracks a target: how far from the centre of
/// the camera the target may be, in each direction, before the camera moves.
#[derive(Debug, Clone, Copy, PartialEq, Eq, Structural)]
pub struct Limit {
    pub top: u16,
    pub right: u16,
    pub bottom: u16,
    pub left: u16,
}

/// Where the centre of a camera goes along one axis when it tracks a target.
/// The target has reached the dead zone's edge on the side of the growing
/// coordinates at `center + ahead`, and on the other side at
/// `center - behind`. There the centre moves so that the target lies on that
/// edge. Between the two edges the centre stays.
pub open spec fn follow(center: int, target: int, ahead: int, behind: int) -> int {
    if target >= center + ahead {
        target - ahead
    } else if target <= center - behind {
        target + behind
    } else {
        center
    }
}

/// The mathematical model of a camera.
pub struct CameraState {
    pub position: WorldPos,
    pub size: WorldSize,
    pub bounding_box: WorldRect,
    pub limit: Option<Limit>,
}

impl CameraState {
    /// Whether the four edges of the rect of the given size around the given
    /// centre are coordinates of the world.
    pub open spec fn representable(position: WorldPos, size: WorldSize) -> bool {
        &&& i32::MIN <= position.x - size.width / 2
        &&& position.x - size.width / 2 + size.width <= i32::MAX
        &&& i32::MIN <= position.y - size.height / 2
        &&& position.y - size.height / 2 + size.height <= i32::MAX
    }

    /// The rect of the given size around the given centre.
    pub open spec fn centered(position: WorldPos, size: WorldSize) -> WorldRect {
        WorldRect {
            origin: WorldPos {
                x: (position.x - size.width / 2) as i32,
                y: (position.y - size.height / 2) as i32,
            },
            size,
        }
    }

    /// The bounding box is the rect of the camera's size around its position.
    pub open spec fn wf(self) -> bool {
        &&& Self::representable(self.position, self.size)
        &&& self.bounding_box == Self::centered(self.position, self.size)
    }

    /// The position in the viewport of a position in the world: its offset
    /// from the top left corner of the bounding box, cut down to sixteen bits.
    pub open spec fn to_screen(self, pos: WorldPos) -> ScreenPos {
        ScreenPos {
            x: (pos.x - self.bounding_box.origin.x) as u16,
            y: (pos.y - self.bounding_box.origin.y) as u16,
        }
    }

    /// The camera at another position.
    pub open spec fn moved_to(self, position: WorldPos) -> CameraState {
        CameraState { position, bounding_box: Self::centered(position, self.size), ..self }
    }

    /// The camera with another size.
    pub open spec fn resized(self, width: u16, height: u16) -> CameraState {
        let size = WorldSize { width, height };
        CameraState { size, bounding_box: Self::centered(self.position, size), ..self }
    }

    /// Where a camera with the given dead zone goes when it tracks the
    /// target.
    pub open spec fn goal(self, limit: Limit, target: WorldPos) -> WorldPos {
        WorldPos {
            x: follow(
                self.position.x as int,
                target.x as int,
                limit.left as int,
                limit.right as int,
            ) as i32,
            y: follow(
                self.position.y as int,
                target.y as int,
                limit.top as int,
                limit.bottom as int,
            ) as i32,
        }
    }

    /// Whether the camera can track the target: it has no dead zone, or the
    /// bounding box around the place where it goes has its edges in the world.
    pub open spec fn can_track(self, target: WorldPos) -> bool {
        self.limit matches Some(limit) ==> Self::representable(self.goal(limit, target), self.size)
    }

    /// The camera after tracking the target. Without a dead zone it stays.
    pub open spec fn after_track(self, target: WorldPos) -> CameraState {
        match self.limit {
            Some(limit) => self.moved_to(self.goal(limit, target)),
            None => self,
        }
    }
}

/// The centre of a tracking camera stays while the target is strictly inside
/// the dead zone. Once the target reaches an edge or goes beyond it, the
/// centre goes where the target lies exactly on that edge. The centre never
/// goes further than the target did.
pub proof fn lemma_follow(center: int, target: int, ahead: int, behind: int)
    requires
        0 <= ahead,
        0 <= behind,
    ensures
        center - behind < target < center + ahead ==> follow(center, target, ahead, behind)
            == center,
        target >= center + ahead ==> target == follow(center, target, ahead, behind) + ahead,
        target < center + ahead && target <= center - behind ==> target == follow(
            center,
            target,
            ahead,
            behind,
        ) - behind,
        center <= follow(center, target, ahead, behind) <= target || target <= follow(
            center,
            target,
            ahead,
            behind,
        ) <= center,
{
}

/// The top left corner of the bounding box is the top left corner of the
/// viewport, whatever the camera.
pub proof fn lemma_origin_to_screen(camera: CameraState)
    ensures
        camera.to_screen(camera.bounding_box.origin) == (ScreenPos { x: 0, y: 0 }),
{
}

/// A position inside the bounding box goes to its offset from the top left
/// corner of the box, which is inside an area of the camera's size.
pub proof fn lemma_to_screen_inside(camera: CameraState, pos: WorldPos)
    requires
        camera.bounding_box.contains(pos),
    ensures
        camera.to_screen(pos).x == pos.x - camera.bounding_box.origin.x,
        camera.to_screen(pos).y == pos.y - camera.bounding_box.origin.y,
        camera.to_screen(pos).x < camera.bounding_box.size.width,
        camera.to_screen(pos).y < camera.bounding_box.size.height,
{
}

/// Camera: sees the part of the world that lies in a rect around its
/// position, and can track a target once it has a limit.
#[derive(Debug)]
pub struct Camera {
    /// Global position
    pub position: WorldPos,
    size: WorldSize,
    /// The part of the world that the camera sees.
    pub bounding_box: WorldRect,
    limit: Option<Limit>,
}

impl View for Camera {
    type V = CameraState;

    closed spec fn view(&self) -> CameraState {
        CameraState {
            position: self.position,
            size: self.size,
            bounding_box: self.bounding_box,
            limit: self.limit,
        }
    }
}

impl Camera {
    /// Whether a camera of the given size can be at the given position: the
    /// edges of its bounding box are then coordinates of the world.
    pub fn representable(position: WorldPos, size: WorldSize) -> (fits: bool)
        ensures
            fits == CameraState::representable(position, size),
    {
        let min_x: i64 = position.x as i64 - (size.width / 2) as i64;
        let min_y: i64 = position.y as i64 - (size.height / 2) as i64;
        i32::MIN as i64 <= min_x && min_x + size.width as i64 <= i32::MAX as i64 && i32::MIN as i64
            <= min_y && min_y + size.height as i64 <= i32::MAX as i64
    }

    /// Whether the camera can track the target: it has no limit, or it can
    /// be at the position where tracking takes it.
    pub fn can_track(&self, pos: WorldPos) -> (able: bool)
        ensures
            able == self@.can_track(pos),
    {
        match self.limit {
            Some(limit) => {
                let x = Self::follow(self.position.x, pos.x, limit.left, limit.right);
                let y = Self::follow(self.position.y, pos.y, limit.top, limit.bottom);
                Self::representable(WorldPos::new(x, y), self.size)
            },
            None => true,
        }
    }

    /// Global position
    pub fn position(&self) -> (position: WorldPos)
        ensures
            position == self@.position,
    {
        self.position
    }

    /// The part of the world that the camera sees.
    pub fn bounding_box(&self) -> (rect: WorldRect)
        ensures
            rect == self@.bounding_box,
    {
        self.bounding_box
    }

    /// The rect of the given size around the given centre.
    fn centered(position: WorldPos, size: WorldSize) -> (rect: WorldRect)
        requires
            CameraState::representable(position, size),
        ensures
            rect == CameraState::centered(position, size),
            rect.wf(),
    {
        WorldRect::new(
            WorldPos::new(
                position.x - (size.width / 2) as i32,
                position.y - (size.height / 2) as i32,
            ),
            size,
        )
    }

    /// Create a new camera at a specific world position, with the size of the
    /// viewport.
    pub fn from_viewport(position: WorldPos, viewport: &Viewport) -> (camera: Camera)
        requires
            CameraState::representable(
                position,
                WorldSize { width: viewport@.size.width, height: viewport@.size.height },
            ),
        ensures
            camera@ == (CameraState {
                position,
                size: WorldSize { width: viewport@.size.width, height: viewport@.size.height },
                bounding_box: CameraState::centered(
                    position,
                    WorldSize { width: viewport@.size.width, height: viewport@.size.height },
                ),
                limit: None,
            }),
            camera@.wf(),
    {
        let size = WorldSize::new(viewport.size().width, viewport.size().height);
        Self::new(position, size)
    }

    /// Create a new camera
    pub fn new(position: WorldPos, size: WorldSize) -> (camera: Camera)
        requires
            CameraState::representable(position, size),
        ensures
            camera@ == (CameraState {
                position,
                size,
                bounding_box: CameraState::centered(position, size),
                limit: None,
            }),
            camera@.wf(),
    {
        let bounding_box = Self::centered(position, size);
        Self { position, size, bounding_box, limit: None }
    }

    /// The limit is used for tracking. For more information see `track`.
    /// given a limit of 1, 1, 1, 1, `c` represents the centre:
    ///
    /// ```text
    /// [ ] [ ] [ ] [ ] [ ]
    /// [ ] [x] [x] [x] [ ]
    /// [ ] [x] [c] [x] [ ]
    /// [ ] [x] [x] [x] [ ]
    /// [ ] [ ] [ ] [ ] [ ]
    /// ```
    pub fn with_limit(self, top: u16, right: u16, bottom: u16, left: u16) -> (camera: Camera)
        ensures
            camera@ == (CameraState {
                limit: Some(Limit { top, right, bottom, left }),
                ..self@
            }),
    {
        Camera {
            limit: Some(Limit { top, right, bottom, left }),
            position: self.position,
            bounding_box: self.bounding_box,
            size: self.size,
        }
    }

    /// Resize the camera. The bounding box keeps its centre.
    pub fn resize(&mut self, width: u16, height: u16)
        requires
            CameraState::representable(old(self)@.position, WorldSize { width, height }),
        ensures
            final(self)@ == old(self)@.resized(width, height),
            final(self)@.wf(),
    {
        self.size = WorldSize::new(width, height);
        self.bounding_box = Self::centered(self.position, self.size);
    }

    /// Convert a point to local space. Inside the bounding box this is the
    /// point's offset from the box's top left corner.
    pub fn to_screen(&self, pos: WorldPos) -> (screen: ScreenPos)
        ensures
            screen == self@.to_screen(pos),
            self@.bounding_box.contains(pos) ==> screen.x == pos.x - self@.bounding_box.origin.x
                && screen.y == pos.y - self@.bounding_box.origin.y,
    {
        let min_x = self.bounding_box.min_x();
        let min_y = self.bounding_box.min_y();
        let x: i64 = pos.x as i64 - min_x as i64;
        let y: i64 = pos.y as i64 - min_y as i64;
        ScreenPos::new(
            #[verifier::truncate]
            (x as u16),
            #[verifier::truncate]
            (y as u16),
        )
    }

    /// Move the camera to a new position in global space
    pub fn move_to(&mut self, new_pos: WorldPos)
        requires
            old(self)@.wf(),
            CameraState::representable(new_pos, old(self)@.size),
        ensures
            final(self)@ == old(self)@.moved_to(new_pos),
            final(self)@.wf(),
    {
        if new_pos == self.position {
            return ;
        }
        self.position = new_pos;

        // Bounding box
        self.bounding_box = Self::centered(self.position, self.size);
    }

    /// Move the camera if the target is outside of the camera's `limit` box.
    /// A camera without a limit stays where it is.
    pub fn track(&mut self, pos: WorldPos)
        requires
            old(self)@.wf(),
            old(self)@.can_track(pos),
        ensures
            final(self)@ == old(self)@.after_track(pos),
            final(self)@.wf(),
    {
        let limit = match self.limit {
            Some(limit) => limit,
            None => return ,
        };
        let x = Self::follow(self.position.x, pos.x, limit.left, limit.right);
        let y = Self::follow(self.position.y, pos.y, limit.top, limit.bottom);
        self.move_to(WorldPos::new(x, y));
    }

    /// Where the centre goes along one axis when the camera tracks a target.
    fn follow(center: i32, target: i32, ahead: u16, behind: u16) -> (moved: i32)
        ensures
            moved == follow(center as int, target as int, ahead as int, behind as int),
    {
        if target as i64 >= center as i64 + ahead as i64 {
            (target as i64 - ahead as i64) as i32
        } else if target as i64 <= center as i64 - behind as i64 {
            (target as i64 + behind as i64) as i32
        } else {
            center
        }
    }
}

} // verus!
