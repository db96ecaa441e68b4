//! Layout descriptors: a display symbol, behaviour switches, an arrangement
//! strategy from a closed set, and two adjustable numeric parameters. A
//! layout maps an ordered client list and a screen region to one placement
//! instruction per client.

use vstd::prelude::*;

verus! {

/// Opaque identifier of a managed window.
pub type WinId = u32;

/// Direction of a numeric parameter adjustment.
#[derive(Clone, Copy, Debug, PartialEq, Eq, Structural)]
pub enum Change {
    More,
    Less,
}

/// The main-area ratio is kept in thousandths of the region width, so the
/// whole range from nothing to everything is 0 to this value.
pub const MAX_RATIO_PERMILLE: u32 = 1000;

/// A rectangular screen area: offset plus extent.
#[derive(Clone, Copy, Debug, PartialEq, Eq, Structural)]
pub struct Region {
    pub x: u32,
    pub y: u32,
    pub w: u32,
    pub h: u32,
}

impl Region {
    /// The region lies inside the coordinate space: offset plus extent
    /// overflows on neither axis.
    pub open spec fn wf(&self) -> bool {
        self.x + self.w <= u32::MAX && self.y + self.h <= u32::MAX
    }

    pub fn new(x: u32, y: u32, w: u32, h: u32) -> (r: Region)
        requires
            x + w <= u32::MAX,
            y + h <= u32::MAX,
        ensures
            r == (Region { x, y, w, h }),
            r.wf(),
    {
        Region { x, y, w, h }
    }
}

/// One placement instruction: the window to place and the geometry it gets.
#[derive(Clone, Copy, Debug, PartialEq, Eq, Structural)]
pub struct ResizeAction {
    pub id: WinId,
    pub region: Region,
}

/// Metadata for one managed window. Owned by the caller's registry; the
/// workspace only reads it at arrangement time and never retains it.
#[derive(Clone, Debug)]
pub struct Client {
    pub id: WinId,
    pub wm_name: String,
    pub workspace: usize,
    pub floating: bool,
}

impl Client {
    pub fn new(id: WinId, wm_name: String, workspace: usize, floating: bool) -> (r: Client)
        ensures
            r.id == id,
            r.wm_name@ == wm_name@,
            r.workspace == workspace,
            r.floating == floating,
    {
        Client { id, wm_name, workspace, floating }
    }
}

/// Static behaviour switches of a layout.
#[derive(Clone, Copy, Debug, PartialEq, Eq, Structural)]
pub struct LayoutConf {
    /// Clients are left floating rather than tiled.
    pub floating: bool,
    /// No gaps are kept between tiled clients.
    pub gapless: bool,
    /// Focus follows the pointer; cyclic navigation then refuses to wrap
    /// around the ends of the client ring.
    pub follow_focus: bool,
}

impl Default for LayoutConf {
    /// All switches off: tiled, gaps allowed, focus free to wrap.
    fn default() -> (r: LayoutConf)
        ensures
            r == (LayoutConf { floating: false, gapless: false, follow_focus: false }),
    {
        LayoutConf { floating: false, gapless: false, follow_focus: false }
    }
}

/// The closed set of arrangement strategies compiled into this build.
#[derive(Clone, Copy, Debug, PartialEq, Eq, Structural)]
pub enum LayoutKind {
    /// Every client is given the whole region.
    Monocle,
    /// Clients are stacked top to bottom in equal-height rows.
    Rows,
}

/// The geometry of row `i` of `n` equal-height rows of `r`, top to bottom.
pub open spec fn row_region(r: Region, i: int, n: int) -> Region {
    Region { x: r.x, y: (r.y + i * (r.h as int / n)) as u32, w: r.w, h: (r.h as int / n) as u32 }
}

/// The value of the maximum main-area count after one step in `change`'s
/// direction; already-extreme values stay in place.
pub open spec fn stepped_max_main(m: u32, change: Change) -> u32 {
    match change {
        Change::More => if m < u32::MAX {
            (m + 1) as u32
        } else {
            m
        },
        Change::Less => if m > 0 {
            (m - 1) as u32
        } else {
            0
        },
    }
}

/// The value of the main-area ratio after one adjustment by `step` in
/// `change`'s direction, saturating at 0 and at the maximum.
pub open spec fn stepped_ratio(rp: u32, change: Change, step: u32) -> u32 {
    match change {
        Change::More => if rp + step <= MAX_RATIO_PERMILLE {
            (rp + step) as u32
        } else {
            MAX_RATIO_PERMILLE
        },
        Change::Less => if rp >= step {
            (rp - step) as u32
        } else {
            0
        },
    }
}

proof fn lemma_mul_div_le(i: int, n: int, h: int)
    requires
        0 <= i <= n,
        1 <= n,
        0 <= h,
    ensures
        0 <= i * (h / n),
        i * (h / n) <= h,
{
    let d = h / n;
    let m = h % n;
    vstd::arithmetic::div_mod::lemma_fundamental_div_mod(h, n);
    vstd::arithmetic::div_mod::lemma_div_pos_is_pos(h, n);
    assert(0 <= i * d && i * d <= h) by (nonlinear_arith)
        requires
            h == n * d + m,
            0 <= m,
            0 <= i <= n,
            0 <= d,
    ;
}

/// A layout: display symbol, behaviour switches, arrangement strategy, and
/// the two adjustable numeric parameters (maximum main-area count and
/// main-area ratio in thousandths).
#[derive(Clone, Copy, Debug)]
pub struct Layout {
    pub symbol: &'static str,
    pub conf: LayoutConf,
    pub kind: LayoutKind,
    pub max_main: u32,
    pub ratio_permille: u32,
}

impl Layout {
    /// Parameter invariant: the ratio never exceeds the full width.
    pub open spec fn wf(&self) -> bool {
        self.ratio_permille <= MAX_RATIO_PERMILLE
    }

    /// `self` after one `update_max_main` step.
    pub open spec fn with_stepped_max_main(self, change: Change) -> Layout {
        Layout { max_main: stepped_max_main(self.max_main, change), ..self }
    }

    /// `self` after one `update_main_ratio` step.
    pub open spec fn with_stepped_ratio(self, change: Change, step: u32) -> Layout {
        Layout { ratio_permille: stepped_ratio(self.ratio_permille, change, step), ..self }
    }

    /// The placements this layout produces for the clients named by `ids`
    /// over region `r`: one action per client, in ring order. The focus hint
    /// is part of the arrangement interface; neither strategy of this build
    /// reads it.
    pub open spec fn arrange_spec(self, ids: Seq<WinId>, focus: Option<WinId>, r: Region) -> Seq<
        ResizeAction,
    > {
        match self.kind {
            LayoutKind::Monocle => Seq::new(
                ids.len(),
                |i: int| ResizeAction { id: ids[i], region: r },
            ),
            LayoutKind::Rows => Seq::new(
                ids.len(),
                |i: int| ResizeAction { id: ids[i], region: row_region(r, i, ids.len() as int) },
            ),
        }
    }

    /// Builds a layout; a ratio above the maximum is clamped to it.
    pub fn new(
        symbol: &'static str,
        conf: LayoutConf,
        kind: LayoutKind,
        max_main: u32,
        ratio_permille: u32,
    ) -> (r: Layout)
        ensures
            r.symbol == symbol,
            r.conf == conf,
            r.kind == kind,
            r.max_main == max_main,
            r.ratio_permille == if ratio_permille <= MAX_RATIO_PERMILLE {
                ratio_permille
            } else {
                MAX_RATIO_PERMILLE
            },
            r.wf(),
    {
        let ratio: u32 = if ratio_permille <= MAX_RATIO_PERMILLE {
            ratio_permille
        } else {
            MAX_RATIO_PERMILLE
        };
        Layout { symbol, conf, kind, max_main, ratio_permille: ratio }
    }

    /// Step the maximum main-area count in `change`'s direction; a count at
    /// an end of its range stays there.
    pub fn update_max_main(&mut self, change: Change)
        ensures
            *final(self) == old(self).with_stepped_max_main(change),
    {
        match change {
            Change::More => {
                if self.max_main < u32::MAX {
                    self.max_main = self.max_main + 1;
                }
            },
            Change::Less => {
                if self.max_main > 0 {
                    self.max_main = self.max_main - 1;
                }
            },
        }
    }

    /// Adjust the main-area ratio by `step` thousandths in `change`'s
    /// direction, saturating at 0 and at the full width.
    pub fn update_main_ratio(&mut self, change: Change, step: u32)
        requires
            old(self).wf(),
        ensures
            *final(self) == old(self).with_stepped_ratio(change, step),
            final(self).wf(),
    {
        match change {
            Change::More => {
                if step <= MAX_RATIO_PERMILLE && self.ratio_permille <= MAX_RATIO_PERMILLE - step {
                    self.ratio_permille = self.ratio_permille + step;
                } else {
                    self.ratio_permille = MAX_RATIO_PERMILLE;
                }
            },
            Change::Less => {
                if self.ratio_permille >= step {
                    self.ratio_permille = self.ratio_permille - step;
                } else {
                    self.ratio_permille = 0;
                }
            },
        }
    }

    /// Produce one placement per resolved client for `region`, following this
    /// layout's strategy.
    pub fn arrange(&self, clients: &Vec<&Client>, focus: Option<WinId>, region: &Region) -> (r: Vec<
        ResizeAction,
    >)
        requires
            region.wf(),
            clients@.len() <= u32::MAX,
        ensures
            r@ == self.arrange_spec(ids_of(clients@), focus, *region),
            r@.len() == clients@.len(),
    {
        let ghost goal = self.arrange_spec(ids_of(clients@), focus, *region);
        let n: usize = clients.len();
        let mut out: Vec<ResizeAction> = Vec::new();
        if n == 0 {
            proof {
                assert(out@ =~= goal);
            }
            return out;
        }
        match self.kind {
            LayoutKind::Monocle => {
                let mut i: usize = 0;
                while i < n
                    invariant
                        i <= n,
                        n == clients@.len(),
                        out@.len() == i,
                        goal == self.arrange_spec(ids_of(clients@), focus, *region),
                        self.kind == LayoutKind::Monocle,
                        forall|j: int| 0 <= j < i ==> out@[j] == goal[j],
                    decreases n - i,
                {
                    out.push(ResizeAction { id: clients[i].id, region: *region });
                    i = i + 1;
                }
            },
            LayoutKind::Rows => {
                let nn: u32 = n as u32;
                let rh: u32 = region.h / nn;
                let mut i: usize = 0;
                while i < n
                    invariant
                        i <= n,
                        1 <= n <= u32::MAX,
                        n == clients@.len(),
                        nn == n as u32,
                        rh == region.h as int / n as int,
                        region.wf(),
                        out@.len() == i,
                        goal == self.arrange_spec(ids_of(clients@), focus, *region),
                        self.kind == LayoutKind::Rows,
                        forall|j: int| 0 <= j < i ==> out@[j] == goal[j],
                    decreases n - i,
                {
                    proof {
                        lemma_mul_div_le(i as int + 1, n as int, region.h as int);
                        assert(i as int * (region.h as int / n as int) + (region.h as int / n
                            as int) == (i as int + 1) * (region.h as int / n as int))
                            by (nonlinear_arith);
                    }
                    let y: u32 = region.y + (i as u32) * rh;
                    out.push(
                        ResizeAction {
                            id: clients[i].id,
                            region: Region { x: region.x, y, w: region.w, h: rh },
                        },
                    );
                    i = i + 1;
                }
            },
        }
        proof {
            assert(out@ =~= goal);
        }
        out
    }
}

/// The identifiers of the given clients, in order.
pub open spec fn ids_of(cs: Seq<&Client>) -> Seq<WinId> {
    cs.map_values(|c: &Client| c.id)
}

} // verus!
