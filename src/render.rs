use vstd::arithmetic::div_mod::{lemma_fundamental_div_mod, lemma_fundamental_div_mod_converse};
use vstd::prelude::*;
use vstd::string::StringExecFns;

verus! {

/// Why a draw was turned down.
#[derive(Clone, Copy, Debug, PartialEq, Eq, Structural)]
pub enum DrawError {
    /// The box to draw lies wholly outside the canvas on some axis.
    OutOfCanvas,
}

/// Whether a box of `width` by `height` placed with its top left corner at
/// (`dx`, `dy`) reaches the canvas of `canvas_width` by `canvas_height` on both axes.
pub open spec fn reaches_canvas(
    canvas_width: int,
    canvas_height: int,
    dx: int,
    dy: int,
    width: int,
    height: int,
) -> bool {
    0 <= dx + width && dx <= canvas_width && 0 <= dy + height && dy <= canvas_height
}

/// The drawing surface: a canvas of fixed size, set once at setup.
#[derive(Clone, Copy, Debug)]
pub struct Renderer {
    canvas_width: u32,
    canvas_height: u32,
}

impl Renderer {
    /// The canvas width in pixels.
    pub closed spec fn spec_canvas_width(&self) -> u32 {
        self.canvas_width
    }

    /// The canvas height in pixels.
    pub closed spec fn spec_canvas_height(&self) -> u32 {
        self.canvas_height
    }

    /// A surface for a canvas of `canvas_width` by `canvas_height` pixels.
    pub fn new(canvas_width: u32, canvas_height: u32) -> (r: Self)
        ensures
            r.spec_canvas_width() == canvas_width,
            r.spec_canvas_height() == canvas_height,
    {
        Renderer { canvas_width, canvas_height }
    }

    /// The canvas width in pixels.
    pub fn canvas_width(&self) -> (r: u32)
        ensures
            r == self.spec_canvas_width(),
    {
        self.canvas_width
    }

    /// The canvas height in pixels.
    pub fn canvas_height(&self) -> (r: u32)
        ensures
            r == self.spec_canvas_height(),
    {
        self.canvas_height
    }
}

/// A point on the canvas, in pixels from its top left corner.
#[derive(Clone, Copy, Debug, PartialEq, Eq, Structural)]
pub struct Position {
    dx: i64,
    dy: i64,
}

impl Position {
    /// The distance from the left edge.
    pub closed spec fn spec_dx(&self) -> i64 {
        self.dx
    }

    /// The distance from the top edge.
    pub closed spec fn spec_dy(&self) -> i64 {
        self.dy
    }

    /// The point (`dx`, `dy`).
    pub fn new(dx: i64, dy: i64) -> (r: Self)
        ensures
            r.spec_dx() == dx,
            r.spec_dy() == dy,
    {
        Position { dx, dy }
    }

    /// The distance from the left edge.
    pub fn dx(&self) -> (r: i64)
        ensures
            r == self.spec_dx(),
    {
        self.dx
    }

    /// The distance from the top edge.
    pub fn dy(&self) -> (r: i64)
        ensures
            r == self.spec_dy(),
    {
        self.dy
    }
}

/// One tile of an atlas: the rectangle at (`sx`, `sy`) of `width` by `height`
/// pixels in the atlas image.
#[derive(Clone, Copy, Debug, PartialEq, Eq, Structural)]
pub struct Sprite {
    sx: u32,
    sy: u32,
    width: u32,
    height: u32,
}

impl Sprite {
    /// The left edge of the tile in the atlas image.
    pub closed spec fn spec_sx(&self) -> u32 {
        self.sx
    }

    /// The top edge of the tile in the atlas image.
    pub closed spec fn spec_sy(&self) -> u32 {
        self.sy
    }

    /// The width of the tile.
    pub closed spec fn spec_width(&self) -> u32 {
        self.width
    }

    /// The height of the tile.
    pub closed spec fn spec_height(&self) -> u32 {
        self.height
    }

    fn new(sx: u32, sy: u32, width: u32, height: u32) -> (r: Self)
        ensures
            r.spec_sx() == sx,
            r.spec_sy() == sy,
            r.spec_width() == width,
            r.spec_height() == height,
    {
        Sprite { sx, sy, width, height }
    }

    /// The left edge of the tile in the atlas image.
    pub fn sx(&self) -> (r: u32)
        ensures
            r == self.spec_sx(),
    {
        self.sx
    }

    /// The top edge of the tile in the atlas image.
    pub fn sy(&self) -> (r: u32)
        ensures
            r == self.spec_sy(),
    {
        self.sy
    }

    /// The width of the tile.
    pub fn width(&self) -> (r: u32)
        ensures
            r == self.spec_width(),
    {
        self.width
    }

    /// The height of the tile.
    pub fn height(&self) -> (r: u32)
        ensures
            r == self.spec_height(),
    {
        self.height
    }
}

/// One draw of a tile: the source rectangle in the atlas image and the point of
/// the canvas where its top left corner goes, at its own size.
#[derive(Clone, Copy, Debug, PartialEq, Eq, Structural)]
pub struct ImageDraw {
    pub sx: u32,
    pub sy: u32,
    pub width: u32,
    pub height: u32,
    pub dx: i64,
    pub dy: i64,
}

/// A rectangle of the canvas.
#[derive(Clone, Copy, Debug, PartialEq, Eq, Structural)]
pub struct Rect {
    pub x: i64,
    pub y: i64,
    pub width: u32,
    pub height: u32,
}

/// Whether `sprite` drawn at `position` reaches the canvas of `renderer`.
pub open spec fn sprite_reaches_canvas(renderer: Renderer, sprite: Sprite, position: Position) -> bool {
    reaches_canvas(
        renderer.spec_canvas_width() as int,
        renderer.spec_canvas_height() as int,
        position.spec_dx() as int,
        position.spec_dy() as int,
        sprite.spec_width() as int,
        sprite.spec_height() as int,
    )
}

/// The draw of `sprite` at `position`, or `OutOfCanvas` where the tile would lie
/// wholly outside the canvas on some axis. A tile that only partly reaches the
/// canvas is drawn whole; the surface clips it.
pub fn draw_image(renderer: &Renderer, sprite: &Sprite, position: Position) -> (r: Result<
    ImageDraw,
    DrawError,
>)
    ensures
        r is Ok <==> sprite_reaches_canvas(*renderer, *sprite, position),
        r matches Ok(d) ==> d == (ImageDraw {
            sx: sprite.spec_sx(),
            sy: sprite.spec_sy(),
            width: sprite.spec_width(),
            height: sprite.spec_height(),
            dx: position.spec_dx(),
            dy: position.spec_dy(),
        }),
        r matches Err(e) ==> e == DrawError::OutOfCanvas,
{
    let dx = position.dx();
    let dy = position.dy();
    let width = sprite.width() as i64;
    let height = sprite.height() as i64;
    if dx >= -width && dx <= renderer.canvas_width() as i64 && dy >= -height && dy
        <= renderer.canvas_height() as i64 {
        Ok(ImageDraw { sx: sprite.sx(), sy: sprite.sy(), width: sprite.width(), height: sprite.height(), dx, dy })
    } else {
        Err(DrawError::OutOfCanvas)
    }
}

/// The point where text anchored at `position` starts, or `OutOfCanvas` where that
/// point lies outside the canvas: text is held to the canvas as a box of no size.
pub fn draw_text(renderer: &Renderer, position: Position) -> (r: Result<Position, DrawError>)
    ensures
        r is Ok <==> reaches_canvas(
            renderer.spec_canvas_width() as int,
            renderer.spec_canvas_height() as int,
            position.spec_dx() as int,
            position.spec_dy() as int,
            0,
            0,
        ),
        r matches Ok(p) ==> p == position,
        r matches Err(e) ==> e == DrawError::OutOfCanvas,
{
    let dx = position.dx();
    let dy = position.dy();
    if 0 <= dx && dx <= renderer.canvas_width() as i64 && 0 <= dy && dy
        <= renderer.canvas_height() as i64 {
        Ok(position)
    } else {
        Err(DrawError::OutOfCanvas)
    }
}

/// The rectangle to clear: the whole canvas.
pub fn clear(renderer: &Renderer) -> (r: Rect)
    ensures
        r == (Rect {
            x: 0,
            y: 0,
            width: renderer.spec_canvas_width(),
            height: renderer.spec_canvas_height(),
        }),
{
    Rect { x: 0, y: 0, width: renderer.canvas_width(), height: renderer.canvas_height() }
}

/// A tile one pixel further left than its own width from the canvas is turned
/// down, and a tile at the canvas's top left corner is drawn.
pub proof fn lemma_left_edge_rejection(
    renderer: Renderer,
    sprite: Sprite,
    beyond_left: Position,
    origin: Position,
)
    requires
        beyond_left.spec_dx() == -(sprite.spec_width() as int) - 1,
        beyond_left.spec_dy() == 0,
        origin.spec_dx() == 0,
        origin.spec_dy() == 0,
    ensures
        !sprite_reaches_canvas(renderer, sprite, beyond_left),
        sprite_reaches_canvas(renderer, sprite, origin),
{
}


/// Why an atlas could not be built or a tile could not be found.
#[derive(Clone, Copy, Debug, PartialEq, Eq, Structural)]
pub enum AtlasError {
    /// The tile size does not cut the image into a whole grid: a tile side is zero,
    /// or does not divide the image side.
    Configuration,
    /// The requested tile lies outside the grid.
    Lookup,
}

/// The standard, padded base64 text of `bytes`.
pub uninterp spec fn base64_of(bytes: Seq<u8>) -> Seq<char>;

/// Relies on `base64::encode`: the standard alphabet with padding, a text that
/// depends on the bytes alone. It panics only where the length of that text
/// overflows `usize`, which a slice no longer than `isize::MAX` cannot reach.
#[verifier::external_body]
fn encode_base64(bytes: &[u8]) -> (r: String)
    requires
        bytes@.len() <= isize::MAX,
    ensures
        r@ == base64_of(bytes@),
{
    base64::encode(bytes)
}

/// The data URI of an image in format `extension` (such as `png`) with content `bytes`.
pub open spec fn data_uri(extension: Seq<char>, bytes: Seq<u8>) -> Seq<char> {
    "data:image/"@ + extension + ";base64,"@ + base64_of(bytes)
}

/// Whether tiles of `tile_width` by `tile_height` cut an image of `width` by
/// `height` into a whole grid.
pub open spec fn tiles_divide(width: u32, height: u32, tile_width: u32, tile_height: u32) -> bool {
    tile_width > 0 && tile_height > 0 && width % tile_width == 0 && height % tile_height == 0
}

/// Whether `sprite` is the tile in column `col` and row `row` of a grid of tiles
/// of `tile_width` by `tile_height`.
pub open spec fn is_tile(sprite: Sprite, col: int, row: int, tile_width: int, tile_height: int) -> bool {
    &&& sprite.spec_sx() == col * tile_width
    &&& sprite.spec_sy() == row * tile_height
    &&& sprite.spec_width() == tile_width
    &&& sprite.spec_height() == tile_height
}

/// An atlas: one image cut into a grid of equal tiles, held in row-major order.
#[derive(Debug)]
pub struct SpriteStore {
    store: Vec<Sprite>,
    width_in_tile: usize,
    height_in_tile: usize,
    tile_width: u32,
    tile_height: u32,
    source: String,
}

impl SpriteStore {
    /// The number of columns of the grid.
    pub closed spec fn columns(&self) -> nat {
        self.width_in_tile as nat
    }

    /// The number of rows of the grid.
    pub closed spec fn rows(&self) -> nat {
        self.height_in_tile as nat
    }

    /// The width of every tile.
    pub closed spec fn spec_tile_width(&self) -> nat {
        self.tile_width as nat
    }

    /// The height of every tile.
    pub closed spec fn spec_tile_height(&self) -> nat {
        self.tile_height as nat
    }

    /// The tiles in row-major order: the one at `col + row * columns` is in
    /// column `col` and row `row`.
    pub closed spec fn sprites(&self) -> Seq<Sprite> {
        self.store@
    }

    /// The data URI of the atlas image.
    pub closed spec fn spec_source(&self) -> Seq<char> {
        self.source@
    }

    /// The grid has a tile for each column and row, each at its place.
    pub closed spec fn wf(&self) -> bool {
        &&& self.tile_width > 0
        &&& self.tile_height > 0
        &&& self.store@.len() == self.width_in_tile * self.height_in_tile
        &&& self.store@.len() <= usize::MAX
        &&& forall|i: int|
            0 <= i < self.store@.len() ==> is_tile(
                #[trigger] self.store@[i],
                i % (self.width_in_tile as int),
                i / (self.width_in_tile as int),
                self.tile_width as int,
                self.tile_height as int,
            )
    }

    /// Cuts the image of `width` by `height` pixels, in format `extension` with
    /// content `bytes`, into tiles of `tile_width` by `tile_height`: `Configuration`
    /// where they do not make a whole grid, else an atlas of
    /// `width / tile_width` columns and `height / tile_height` rows.
    pub fn new(
        bytes: &[u8],
        extension: &str,
        width: u32,
        height: u32,
        tile_width: u32,
        tile_height: u32,
    ) -> (r: Result<Self, AtlasError>)
        requires
            bytes@.len() <= isize::MAX,
        ensures
            r is Ok <==> tiles_divide(width, height, tile_width, tile_height),
            r matches Err(e) ==> e == AtlasError::Configuration,
            r matches Ok(s) ==> {
                &&& s.wf()
                &&& s.columns() == width / tile_width
                &&& s.rows() == height / tile_height
                &&& s.spec_tile_width() == tile_width
                &&& s.spec_tile_height() == tile_height
                &&& s.spec_source() == data_uri(extension@, bytes@)
            },
    {
        if tile_width == 0 || tile_height == 0 || width % tile_width != 0 || height % tile_height
            != 0 {
            return Err(AtlasError::Configuration);
        }
        let mut source = String::from_str("data:image/");
        source.append(extension);
        source.append(";base64,");
        let encoded = encode_base64(bytes);
        source.append(encoded.as_str());

        let width_in_tile = width / tile_width;
        let height_in_tile = height / tile_height;
        proof {
            lemma_fundamental_div_mod(width as int, tile_width as int);
            lemma_fundamental_div_mod(height as int, tile_height as int);
        }
        let mut store: Vec<Sprite> = Vec::new();
        let mut y: u32 = 0;
        while y < height_in_tile
            invariant
                tile_width > 0,
                tile_height > 0,
                y <= height_in_tile,
                width_in_tile * tile_width == width,
                height_in_tile * tile_height == height,
                store@.len() == y * width_in_tile,
                forall|i: int|
                    0 <= i < store@.len() ==> is_tile(
                        #[trigger] store@[i],
                        i % (width_in_tile as int),
                        i / (width_in_tile as int),
                        tile_width as int,
                        tile_height as int,
                    ),
            decreases height_in_tile - y,
        {
            let mut x: u32 = 0;
            while x < width_in_tile
                invariant
                    tile_width > 0,
                    tile_height > 0,
                    y < height_in_tile,
                    x <= width_in_tile,
                    width_in_tile * tile_width == width,
                    height_in_tile * tile_height == height,
                    store@.len() == y * width_in_tile + x,
                    forall|i: int|
                        0 <= i < store@.len() ==> is_tile(
                            #[trigger] store@[i],
                            i % (width_in_tile as int),
                            i / (width_in_tile as int),
                            tile_width as int,
                            tile_height as int,
                        ),
                decreases width_in_tile - x,
            {
                proof {
                    assert(x * tile_width < width) by (nonlinear_arith)
                        requires
                            x < width_in_tile,
                            width_in_tile * tile_width == width,
                            tile_width > 0,
                    ;
                    assert(y * tile_height < height) by (nonlinear_arith)
                        requires
                            y < height_in_tile,
                            height_in_tile * tile_height == height,
                            tile_height > 0,
                    ;
                    lemma_fundamental_div_mod_converse(
                        store@.len() as int,
                        width_in_tile as int,
                        y as int,
                        x as int,
                    );
                }
                let sprite = Sprite::new(x * tile_width, y * tile_height, tile_width, tile_height);
                store.push(sprite);
                x = x + 1;
            }
            proof {
                assert((y + 1) * width_in_tile == y * width_in_tile + width_in_tile) by (nonlinear_arith);
            }
            y = y + 1;
        }
        // A vector's length is a `usize`: this bounds every place of the grid.
        let tile_count = store.len();
        assert(tile_count == width_in_tile * height_in_tile) by (nonlinear_arith)
            requires
                tile_count == store@.len(),
                store@.len() == y * width_in_tile,
                y == height_in_tile,
        ;
        Ok(
            SpriteStore {
                store,
                width_in_tile: width_in_tile as usize,
                height_in_tile: height_in_tile as usize,
                tile_width,
                tile_height,
                source,
            },
        )
    }

    /// The tile at place `index` of the row-major order, or `Lookup` where
    /// `index` is not below `columns * rows`.
    pub fn sprite(&self, index: usize) -> (r: Result<&Sprite, AtlasError>)
        requires
            self.wf(),
        ensures
            r is Ok <==> index < self.columns() * self.rows(),
            r matches Ok(s) ==> *s == self.sprites()[index as int] && is_tile(
                *s,
                index as int % (self.columns() as int),
                index as int / (self.columns() as int),
                self.spec_tile_width() as int,
                self.spec_tile_height() as int,
            ),
            r matches Err(e) ==> e == AtlasError::Lookup,
    {
        if index < self.store.len() {
            Ok(&self.store[index])
        } else {
            Err(AtlasError::Lookup)
        }
    }

    /// The tile in column `col` and row `row`, or `Lookup` where `col` is not
    /// below `columns` or `row` not below `rows`.
    pub fn sprite_by_col_and_row(&self, col: usize, row: usize) -> (r: Result<&Sprite, AtlasError>)
        requires
            self.wf(),
        ensures
            r is Ok <==> col < self.columns() && row < self.rows(),
            r matches Ok(s) ==> is_tile(
                *s,
                col as int,
                row as int,
                self.spec_tile_width() as int,
                self.spec_tile_height() as int,
            ),
            r matches Err(e) ==> e == AtlasError::Lookup,
    {
        if col >= self.width_in_tile || row >= self.height_in_tile {
            return Err(AtlasError::Lookup);
        }
        proof {
            self.lemma_place_of_tile(col as int, row as int);
        }
        self.sprite(col + row * self.width_in_tile)
    }

    /// The number of columns of the grid.
    pub fn width_in_tile(&self) -> (r: usize)
        ensures
            r == self.columns(),
    {
        self.width_in_tile
    }

    /// The number of rows of the grid.
    pub fn height_in_tile(&self) -> (r: usize)
        ensures
            r == self.rows(),
    {
        self.height_in_tile
    }

    /// The width of every tile.
    pub fn tile_width(&self) -> (r: u32)
        ensures
            r == self.spec_tile_width(),
    {
        self.tile_width
    }

    /// The height of every tile.
    pub fn tile_height(&self) -> (r: u32)
        ensures
            r == self.spec_tile_height(),
    {
        self.tile_height
    }

    /// The data URI of the atlas image, for the host to load it from.
    pub fn source(&self) -> (r: &str)
        ensures
            r@ == self.spec_source(),
    {
        self.source.as_str()
    }

    /// Every place below `columns * rows` holds the tile of one column and row of
    /// the grid: column `index % columns`, row `index / columns`.
    pub proof fn lemma_tile_at_place(&self, index: int)
        requires
            self.wf(),
            0 <= index < self.columns() * self.rows(),
        ensures
            index % (self.columns() as int) < self.columns(),
            index / (self.columns() as int) < self.rows(),
            is_tile(
                self.sprites()[index],
                index % (self.columns() as int),
                index / (self.columns() as int),
                self.spec_tile_width() as int,
                self.spec_tile_height() as int,
            ),
    {
        let cols = self.columns() as int;
        let rows = self.rows() as int;
        assert(cols > 0) by (nonlinear_arith)
            requires
                0 <= index < cols * rows,
                cols >= 0,
                rows >= 0,
        ;
        lemma_fundamental_div_mod(index, cols);
        assert(index / cols < rows) by (nonlinear_arith)
            requires
                index == cols * (index / cols) + index % cols,
                0 <= index % cols,
                index < cols * rows,
                cols > 0,
        ;
    }

    /// The tiles of the grid are exactly its places: the place of column `col` and
    /// row `row` is `col + row * columns`, below `columns * rows`, and holds that tile.
    pub proof fn lemma_place_of_tile(&self, col: int, row: int)
        requires
            self.wf(),
            0 <= col < self.columns(),
            0 <= row < self.rows(),
        ensures
            col + row * self.columns() < self.columns() * self.rows(),
            is_tile(
                self.sprites()[col + row * self.columns()],
                col,
                row,
                self.spec_tile_width() as int,
                self.spec_tile_height() as int,
            ),
    {
        let cols = self.columns() as int;
        let rows = self.rows() as int;
        assert(col + row * cols < cols * rows) by (nonlinear_arith)
            requires
                0 <= col < cols,
                0 <= row < rows,
        ;
        lemma_fundamental_div_mod_converse(col + row * cols, cols, row, col);
    }
}

} // verus!
