//! The size that the picture is sent in.

use vstd::prelude::*;

verus! {

/// The widest picture that is sent when nobody asked for a size.
pub const WIDEST_UNREQUESTED: u32 = 1920;

/// The nearest even number that is not larger, and at least two.
pub open spec fn even_size(v: int) -> u32 {
    if v < 2 {
        2
    } else {
        (v - v % 2) as u32
    }
}

/// Makes a dimension even, and at least two.
pub fn normalize_dimension(value: u32) -> (r: u32)
    ensures
        r == even_size(value as int),
{
    let even: u32 = if value < 2 {
        2
    } else {
        value
    };
    even - even % 2
}

/// What is stored for a requested dimension: 0 stands for none.
pub open spec fn stored_of(value: Option<u32>) -> u32 {
    match value {
        Some(v) => even_size(v as int),
        None => 0,
    }
}

/// Turns a requested dimension into the number that is stored for it.
pub fn normalize_requested_dimension(value: Option<u32>) -> (r: u32)
    ensures
        r == stored_of(value),
{
    match value {
        Some(v) => normalize_dimension(v),
        None => 0,
    }
}

/// What a stored number stands for.
pub open spec fn requested_of(value: u32) -> Option<u32> {
    if value > 0 {
        Some(value)
    } else {
        None
    }
}

/// Reads a stored number back.
pub fn stored_dimension(value: u32) -> (r: Option<u32>)
    ensures
        r == requested_of(value),
{
    if value > 0 {
        Some(value)
    } else {
        None
    }
}

/// What is read back of a stored request is the request, made even, and nothing where there was
/// none.
pub proof fn stored_dimension_reads_back(value: Option<u32>)
    ensures
        requested_of(stored_of(value)) == (match value {
            Some(v) => Some(even_size(v as int)),
            None => None::<u32>,
        }),
{
}

/// `part * asked / whole`, rounded to the nearest whole number, in the low 32 bits.
pub open spec fn in_proportion(part: u32, asked: u32, whole: u32) -> int {
    ((part as int * asked as int + whole as int / 2) / (whole as int)) % 0x1_0000_0000
}

fn proportion(part: u32, asked: u32, whole: u32) -> (r: u32)
    requires
        whole > 0,
    ensures
        r == in_proportion(part, asked, whole),
{
    assert(part as int * asked as int <= 0xFFFF_FFFF * 0xFFFF_FFFF) by (nonlinear_arith)
        requires
            0 <= part <= 0xFFFF_FFFF,
            0 <= asked <= 0xFFFF_FFFF,
    ;
    let product: u64 = part as u64 * asked as u64;
    let rounded: u64 = (product + whole as u64 / 2) / whole as u64;
    (rounded % 0x1_0000_0000) as u32
}

/// The size to send, before it is made even. `capped_h` is the height that goes with a width of
/// 1920 for the source.
pub open spec fn unrounded_target(
    source_w: u32,
    source_h: u32,
    requested_w: Option<u32>,
    requested_h: Option<u32>,
    capped_h: u32,
) -> (int, int) {
    match (requested_w, requested_h) {
        (Some(w), Some(h)) => (w as int, h as int),
        (Some(w), None) => (
            w as int,
            if source_w > 0 {
                in_proportion(source_h, w, source_w)
            } else {
                source_h as int
            },
        ),
        (None, Some(h)) => (
            if source_h > 0 {
                in_proportion(source_w, h, source_h)
            } else {
                source_w as int
            },
            h as int,
        ),
        (None, None) => if source_w > WIDEST_UNREQUESTED {
            (WIDEST_UNREQUESTED as int, capped_h as int)
        } else {
            (source_w as int, source_h as int)
        },
    }
}

/// The size to send.
pub open spec fn target_of(
    source_w: u32,
    source_h: u32,
    requested_w: Option<u32>,
    requested_h: Option<u32>,
    capped_h: u32,
) -> (u32, u32) {
    let t = unrounded_target(source_w, source_h, requested_w, requested_h, capped_h);
    (even_size(t.0), even_size(t.1))
}

/// Works out the size to send for a source, with one dimension, both or none requested. A
/// single dimension keeps the proportions of the source. With none, a source wider than 1920 is
/// cut down to that width, and `capped_h` is the height that goes with it.
pub fn resolve_target_size(
    source_w: u32,
    source_h: u32,
    requested_w: Option<u32>,
    requested_h: Option<u32>,
    capped_h: u32,
) -> (r: (u32, u32))
    ensures
        r == target_of(source_w, source_h, requested_w, requested_h, capped_h),
{
    let size: (u32, u32) = match (requested_w, requested_h) {
        (Some(w), Some(h)) => (w, h),
        (Some(w), None) => {
            if source_w > 0 {
                (w, proportion(source_h, w, source_w))
            } else {
                (w, source_h)
            }
        },
        (None, Some(h)) => {
            if source_h > 0 {
                (proportion(source_w, h, source_h), h)
            } else {
                (source_w, h)
            }
        },
        (None, None) => {
            if source_w > WIDEST_UNREQUESTED {
                (WIDEST_UNREQUESTED, capped_h)
            } else {
                (source_w, source_h)
            }
        },
    };
    (normalize_dimension(size.0), normalize_dimension(size.1))
}

/// The size that is asked for over a session.
#[derive(Clone, Copy, Debug)]
pub struct ResizeState {
    width: u32,
    height: u32,
}

impl ResizeState {
    /// The width that is asked for.
    pub closed spec fn wanted_width(self) -> Option<u32> {
        requested_of(self.width)
    }

    /// The height that is asked for.
    pub closed spec fn wanted_height(self) -> Option<u32> {
        requested_of(self.height)
    }

    /// A state with the given request.
    pub fn new(width: Option<u32>, height: Option<u32>) -> (r: ResizeState)
        ensures
            r.wanted_width() == requested_of(stored_of(width)),
            r.wanted_height() == requested_of(stored_of(height)),
    {
        let mut state = ResizeState { width: 0, height: 0 };
        state.set_target(width, height);
        state
    }

    /// Replaces the request.
    pub fn set_target(&mut self, width: Option<u32>, height: Option<u32>)
        ensures
            final(self).wanted_width() == requested_of(stored_of(width)),
            final(self).wanted_height() == requested_of(stored_of(height)),
    {
        self.width = normalize_requested_dimension(width);
        self.height = normalize_requested_dimension(height);
    }

    /// The size to send for a source.
    pub fn target_size(&self, source_w: u32, source_h: u32, capped_h: u32) -> (r: (u32, u32))
        ensures
            r == target_of(
                source_w,
                source_h,
                self.wanted_width(),
                self.wanted_height(),
                capped_h,
            ),
    {
        resolve_target_size(
            source_w,
            source_h,
            stored_dimension(self.width),
            stored_dimension(self.height),
            capped_h,
        )
    }
}

/// Whatever the source and the request, the picture that is sent has an even width and an even
/// height, neither of them zero.
pub proof fn target_is_even_and_not_empty(
    source_w: u32,
    source_h: u32,
    requested_w: Option<u32>,
    requested_h: Option<u32>,
    capped_h: u32,
)
    ensures
        target_of(source_w, source_h, requested_w, requested_h, capped_h).0 >= 2,
        target_of(source_w, source_h, requested_w, requested_h, capped_h).1 >= 2,
        target_of(source_w, source_h, requested_w, requested_h, capped_h).0 % 2 == 0,
        target_of(source_w, source_h, requested_w, requested_h, capped_h).1 % 2 == 0,
{
}

/// A request for both dimensions is met whatever the source is.
pub proof fn full_request_does_not_depend_on_the_source(
    a_w: u32,
    a_h: u32,
    b_w: u32,
    b_h: u32,
    w: u32,
    h: u32,
    a_capped: u32,
    b_capped: u32,
)
    ensures
        target_of(a_w, a_h, Some(w), Some(h), a_capped) == target_of(
            b_w,
            b_h,
            Some(w),
            Some(h),
            b_capped,
        ),
{
}

/// Without a request the picture is never wider than 1920, and an even source that is not wider
/// is sent as it is.
pub proof fn unrequested_size_is_capped(source_w: u32, source_h: u32, capped_h: u32)
    ensures
        target_of(source_w, source_h, None, None, capped_h).0 <= WIDEST_UNREQUESTED,
        2 <= source_w <= WIDEST_UNREQUESTED && 2 <= source_h && source_w % 2 == 0 && source_h % 2
            == 0 ==> target_of(source_w, source_h, None, None, capped_h) == (source_w, source_h),
{
}

/// To ask for one dimension of the source alone is to get the source's proportions unchanged.
pub proof fn asking_for_the_source_width_keeps_the_source(
    source_w: u32,
    source_h: u32,
    capped_h: u32,
)
    requires
        source_w > 0,
    ensures
        target_of(source_w, source_h, Some(source_w), None, capped_h) == (
            even_size(source_w as int),
            even_size(source_h as int),
        ),
{
    let w = source_w as int;
    let h = source_h as int;
    assert((h * w + w / 2) / w == h) by {
        vstd::arithmetic::div_mod::lemma_fundamental_div_mod_converse(h * w + w / 2, w, h, w / 2);
    }
}

/// A size within a limit, as it is; otherwise the scaled size, made even and not empty.
pub open spec fn capped_size(
    width: u32,
    height: u32,
    max_width: u32,
    max_height: u32,
    scaled: (u32, u32),
) -> (u32, u32) {
    if width <= max_width && height <= max_height {
        (width, height)
    } else {
        (even_size(scaled.0 as int), even_size(scaled.1 as int))
    }
}

/// Keeps a size within a limit. `scaled` is the size brought down in proportion, which is used
/// where the size is over the limit.
pub fn cap_size_preserving_aspect(
    width: u32,
    height: u32,
    max_width: u32,
    max_height: u32,
    scaled: (u32, u32),
) -> (r: (u32, u32))
    ensures
        r == capped_size(width, height, max_width, max_height, scaled),
{
    if width <= max_width && height <= max_height {
        return (width, height);
    }
    (normalize_dimension(scaled.0), normalize_dimension(scaled.1))
}

/// The width and the height of a desktop, from its edges.
pub open spec fn desktop_size(left: i32, top: i32, right: i32, bottom: i32) -> (u32, u32) {
    (distance(left, right), distance(top, bottom))
}

/// How far two coordinates lie apart.
pub open spec fn distance(a: i32, b: i32) -> u32 {
    if a <= b {
        (b - a) as u32
    } else {
        (a - b) as u32
    }
}

/// The edges of a display on the desktop.
#[derive(Clone, Copy, Debug, PartialEq, Eq, Structural)]
pub struct DesktopRect {
    pub left: i32,
    pub top: i32,
    pub right: i32,
    pub bottom: i32,
}

impl DesktopRect {
    /// The width and the height can be told: neither pair of edges is more than `i32::MAX` apart.
    pub open spec fn measurable(self) -> bool {
        &&& i32::MIN <= self.right - self.left <= i32::MAX
        &&& i32::MIN <= self.bottom - self.top <= i32::MAX
    }

    /// The width and the height.
    pub open spec fn size_of(self) -> (u32, u32) {
        desktop_size(self.left, self.top, self.right, self.bottom)
    }

    /// The width and the height.
    pub fn size(&self) -> (r: (u32, u32))
        requires
            self.measurable(),
        ensures
            r == self.size_of(),
    {
        (span(self.left, self.right), span(self.top, self.bottom))
    }
}

fn span(a: i32, b: i32) -> (r: u32)
    ensures
        r == distance(a, b),
{
    if a <= b {
        (b as i64 - a as i64) as u32
    } else {
        (a as i64 - b as i64) as u32
    }
}

/// The display is the first one that has a picture at all.
pub open spec fn first_visible(displays: Seq<DesktopRect>, i: int) -> bool {
    &&& 0 <= i < displays.len()
    &&& displays[i].size_of().0 > 0 && displays[i].size_of().1 > 0
    &&& forall|j: int|
        0 <= j < i ==> (#[trigger] displays[j]).size_of().0 == 0 || displays[j].size_of().1 == 0
}

/// The size of the first display, of those that can be captured, that has a width and a height.
pub fn first_display_size(displays: &[DesktopRect]) -> (r: Option<(u32, u32)>)
    requires
        forall|i: int| 0 <= i < displays@.len() ==> (#[trigger] displays@[i]).measurable(),
    ensures
        r is Some <==> exists|i: int| first_visible(displays@, i),
        r is Some ==> exists|i: int|
            #![trigger displays@[i]]
            first_visible(displays@, i) && r->0 == displays@[i].size_of(),
{
    let mut i: usize = 0;
    while i < displays.len()
        invariant
            i <= displays@.len(),
            forall|j: int| 0 <= j < displays@.len() ==> (#[trigger] displays@[j]).measurable(),
            forall|j: int|
                0 <= j < i ==> (#[trigger] displays@[j]).size_of().0 == 0
                    || displays@[j].size_of().1 == 0,
        decreases displays@.len() - i,
    {
        let size: (u32, u32) = displays[i].size();
        if size.0 > 0 && size.1 > 0 {
            assert(first_visible(displays@, i as int));
            return Some(size);
        }
        i = i + 1;
    }
    None
}

/// The size of a display, and the usual size for one that has no picture.
pub fn display_size_or_usual(display: DesktopRect) -> (r: (u32, u32))
    requires
        display.measurable(),
        display.right - display.left > i32::MIN,
        display.bottom - display.top > i32::MIN,
    ensures
        r == (if display.size_of().0 > 0 && display.size_of().1 > 0 {
            display.size_of()
        } else {
            (1920u32, 1080u32)
        }),
{
    let size: (u32, u32) = display.size();
    if size.0 > 0 && size.1 > 0 {
        size
    } else {
        (1920, 1080)
    }
}

/// A dimension that is sent is the largest even number that is not above what was worked out, and
/// two where that is less.
pub proof fn even_sizes_are_next_below(v: int)
    requires
        v <= u32::MAX,
    ensures
        even_size(v) % 2 == 0,
        v >= 2 ==> v - 1 <= even_size(v) <= v,
        v < 2 ==> even_size(v) == 2,
{
}

proof fn proportion_is_nearest(part: u32, asked: u32, whole: u32, n: int)
    requires
        whole > 0,
        0 <= n <= u32::MAX,
        2 * (n * (whole as int) - part as int * asked as int) <= whole as int,
        2 * (part as int * asked as int - n * (whole as int)) < whole as int,
    ensures
        in_proportion(part, asked, whole) == n,
{
    let a = part as int * asked as int;
    let w = whole as int;
    assert(n * w == w * n) by (nonlinear_arith);
    let rest = a + w / 2 - w * n;
    assert(0 <= rest < w);
    vstd::arithmetic::div_mod::lemma_fundamental_div_mod_converse(a + w / 2, w, n, rest);
    assert(n % 0x1_0000_0000 == n);
}

/// With only a width asked for, the height keeps the proportions of the source: it is the whole
/// number whose ratio to that width is nearest to the source's own, made even.
pub proof fn height_keeps_the_proportions(
    source_w: u32,
    source_h: u32,
    w: u32,
    capped_h: u32,
    height: int,
)
    requires
        source_w > 0,
        0 <= height <= u32::MAX,
        2 * (height * source_w - source_h * w) <= source_w,
        2 * (source_h * w - height * source_w) < source_w,
    ensures
        target_of(source_w, source_h, Some(w), None, capped_h).1 == (if height < 2 {
            2
        } else {
            height - height % 2
        }),
        target_of(source_w, source_h, Some(w), None, capped_h).0 == (if w < 2 {
            2
        } else {
            w - w % 2
        }),
{
    proportion_is_nearest(source_h, w, source_w, height);
}

/// With only a height asked for, the width keeps the proportions of the source: it is the whole
/// number whose ratio to that height is nearest to the source's own, made even.
pub proof fn width_keeps_the_proportions(
    source_w: u32,
    source_h: u32,
    h: u32,
    capped_h: u32,
    width: int,
)
    requires
        source_h > 0,
        0 <= width <= u32::MAX,
        2 * (width * source_h - source_w * h) <= source_h,
        2 * (source_w * h - width * source_h) < source_h,
    ensures
        target_of(source_w, source_h, None, Some(h), capped_h).0 == (if width < 2 {
            2
        } else {
            width - width % 2
        }),
        target_of(source_w, source_h, None, Some(h), capped_h).1 == (if h < 2 {
            2
        } else {
            h - h % 2
        }),
{
    proportion_is_nearest(source_w, h, source_h, width);
}

/// To ask for the source's height alone is to get the source's own size, made even.
pub proof fn asking_for_the_source_height_keeps_the_source(
    source_w: u32,
    source_h: u32,
    capped_h: u32,
)
    requires
        source_h > 0,
    ensures
        target_of(source_w, source_h, None, Some(source_h), capped_h) == (
            even_size(source_w as int),
            even_size(source_h as int),
        ),
{
    proportion_is_nearest(source_w, source_h, source_h, source_w as int);
}

/// Turning the screen on its side, and the request with it, turns the picture on its side.
pub proof fn proportions_do_not_depend_on_the_side(
    source_w: u32,
    source_h: u32,
    asked: u32,
    capped: u32,
    capped2: u32,
)
    ensures
        target_of(source_w, source_h, Some(asked), None, capped) == ({
            let t = target_of(source_h, source_w, None, Some(asked), capped2);
            (t.1, t.0)
        }),
{
}

/// A picture that is asked for in both dimensions has these, each made even.
pub proof fn full_requests_are_met(source_w: u32, source_h: u32, w: u32, h: u32, capped_h: u32)
    requires
        w >= 2,
        h >= 2,
    ensures
        target_of(source_w, source_h, Some(w), Some(h), capped_h) == (
            (w - w % 2) as u32,
            (h - h % 2) as u32,
        ),
{
}

/// A source wider than 1920 that nobody asked a size for is sent 1920 wide, with the height that
/// goes with it, made even.
pub proof fn wide_sources_are_cut_down(source_w: u32, source_h: u32, capped_h: u32)
    requires
        source_w > 1920,
        capped_h >= 2,
    ensures
        target_of(source_w, source_h, None, None, capped_h) == (
            1920u32,
            (capped_h - capped_h % 2) as u32,
        ),
{
}

/// A size within the limit is kept as it is, and any other is replaced by the scaled one, made
/// even: it is never left above the limit that the scaled one keeps.
pub proof fn capped_sizes_keep_the_limit(
    width: u32,
    height: u32,
    max_width: u32,
    max_height: u32,
    scaled: (u32, u32),
)
    requires
        2 <= scaled.0 <= max_width,
        2 <= scaled.1 <= max_height,
    ensures
        ({
            let size = capped_size(width, height, max_width, max_height, scaled);
            &&& size.0 <= max_width && size.1 <= max_height
            &&& width <= max_width && height <= max_height ==> size == (width, height)
            &&& width > max_width || height > max_height ==> scaled.0 - 1 <= size.0 <= scaled.0
                && scaled.1 - 1 <= size.1 <= scaled.1 && size.0 % 2 == 0 && size.1 % 2 == 0
        }),
{
}

/// The size of a display is how far its edges lie apart, whichever comes first, and does not
/// change when the display is moved.
pub proof fn display_sizes_are_distances(display: DesktopRect, dx: int, dy: int)
    requires
        display.left <= display.right,
        display.top <= display.bottom,
        i32::MIN <= display.left + dx,
        display.right + dx <= i32::MAX,
        i32::MIN <= display.top + dy,
        display.bottom + dy <= i32::MAX,
    ensures
        display.left + display.size_of().0 == display.right,
        display.top + display.size_of().1 == display.bottom,
        (DesktopRect {
            left: (display.right + dx) as i32,
            top: (display.bottom + dy) as i32,
            right: (display.left + dx) as i32,
            bottom: (display.top + dy) as i32,
        }).size_of() == display.size_of(),
{
}

/// Every number but 0 stands for itself, and 0 for no request.
pub proof fn numbers_stand_for_themselves(value: u32)
    ensures
        value != 0 ==> requested_of(value) == Some(value),
        value == 0 ==> requested_of(value) is None,
{
}

/// A display whose edges lie in order can be measured as long as they are no more than
/// 2147483647 apart.
pub proof fn displays_of_any_usual_size_are_measurable(display: DesktopRect)
    requires
        0 <= display.right - display.left <= 2147483647,
        0 <= display.bottom - display.top <= 2147483647,
    ensures
        display.measurable(),
{
}

/// A display that has a width and a height is the first visible one where it comes first, and the
/// only one. One that lacks either is passed over: what is found behind it is what would be found
/// without it.
pub proof fn displays_without_an_area_are_passed_over(
    front: DesktopRect,
    displays: Seq<DesktopRect>,
    i: int,
)
    ensures
        front.left != front.right && front.top != front.bottom ==> (first_visible(
            seq![front] + displays,
            i,
        ) <==> i == 0),
        front.left == front.right || front.top == front.bottom ==> (first_visible(
            seq![front] + displays,
            i,
        ) <==> first_visible(displays, i - 1)),
{
    let all = seq![front] + displays;
    assert(all[0] == front);
    assert forall|j: int| 0 <= j < displays.len() implies all[j + 1] == #[trigger] displays[j] by {}
    if front.left == front.right || front.top == front.bottom {
        if first_visible(displays, i - 1) {
            assert forall|j: int| 0 <= j < i implies (#[trigger] all[j]).size_of().0 == 0
                || all[j].size_of().1 == 0 by {
                if j > 0 {
                    assert(all[j] == displays[j - 1]);
                }
            }
        }
        if first_visible(all, i) {
            assert forall|j: int| 0 <= j < i - 1 implies (#[trigger] displays[j]).size_of().0 == 0
                || displays[j].size_of().1 == 0 by {
                assert(all[j + 1] == displays[j]);
            }
        }
    }
}

} // verus!
