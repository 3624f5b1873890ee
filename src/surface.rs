use vstd::prelude::*;

use crate::graph::GraphMaker;
use crate::text::{array_text, decimal, is_positive_numeral, positive_numeral, write_array, write_decimal};

verus! {

/// What a [`Surface`] holds: its settings and the commands drawn so far.
pub struct SurfaceView {
    pub row_stride: usize,
    pub col_stride: usize,
    pub with_surface: bool,
    pub with_wireframe: bool,
    pub colormap_index: usize,
    pub colormap_name: Seq<char>,
    pub with_colormap: bool,
    pub with_colorbar: bool,
    pub colorbar_label: Seq<char>,
    pub number_format_cb: Seq<char>,
    pub solid_color: Seq<char>,
    pub line_color: Seq<char>,
    pub line_style: Seq<char>,
    pub line_width: Seq<char>,
    pub buffer: Seq<char>,
}

/// One call of a setter of [`Surface`], with its argument.
pub enum SurfaceSetting {
    RowStride(usize),
    ColStride(usize),
    WithSurface(bool),
    WithWireframe(bool),
    ColormapIndex(usize),
    ColormapName(Seq<char>),
    WithColormap(bool),
    WithColorbar(bool),
    ColorbarLabel(Seq<char>),
    NumberFormatCb(Seq<char>),
    SolidColor(Seq<char>),
    LineColor(Seq<char>),
    LineStyle(Seq<char>),
    LineWidth(Seq<char>),
}

/// `prefix` and the numeral of `n`, or nothing when `n` is zero.
pub open spec fn count_option(prefix: Seq<char>, n: usize) -> Seq<char> {
    if n > 0 {
        prefix + decimal(n as nat)
    } else {
        Seq::empty()
    }
}

/// `prefix`, `value` and a closing quote, or nothing when `value` is empty.
pub open spec fn text_option(prefix: Seq<char>, value: Seq<char>) -> Seq<char> {
    if value.len() > 0 {
        prefix + value + "'"@
    } else {
        Seq::empty()
    }
}

/// The empty text when `flag` is off, else `s`.
pub open spec fn if_on(flag: bool, s: Seq<char>) -> Seq<char> {
    if flag {
        s
    } else {
        Seq::empty()
    }
}

impl SurfaceView {
    /// The settings of a new surface, with an empty buffer.
    pub open spec fn initial() -> SurfaceView {
        SurfaceView {
            row_stride: 0,
            col_stride: 0,
            with_surface: true,
            with_wireframe: false,
            colormap_index: 0,
            colormap_name: Seq::empty(),
            with_colormap: true,
            with_colorbar: false,
            colorbar_label: Seq::empty(),
            number_format_cb: Seq::empty(),
            solid_color: Seq::empty(),
            line_color: "black"@,
            line_style: Seq::empty(),
            line_width: "0"@,
            buffer: Seq::empty(),
        }
    }

    /// The surface after one setter call.
    pub open spec fn set(self, s: SurfaceSetting) -> SurfaceView {
        match s {
            SurfaceSetting::RowStride(v) => SurfaceView { row_stride: v, ..self },
            SurfaceSetting::ColStride(v) => SurfaceView { col_stride: v, ..self },
            SurfaceSetting::WithSurface(v) => SurfaceView { with_surface: v, ..self },
            SurfaceSetting::WithWireframe(v) => SurfaceView { with_wireframe: v, ..self },
            SurfaceSetting::ColormapIndex(v) => SurfaceView {
                colormap_index: v,
                colormap_name: Seq::empty(),
                ..self
            },
            SurfaceSetting::ColormapName(v) => SurfaceView { colormap_name: v, ..self },
            SurfaceSetting::WithColormap(v) => SurfaceView { with_colormap: v, ..self },
            SurfaceSetting::WithColorbar(v) => SurfaceView { with_colorbar: v, ..self },
            SurfaceSetting::ColorbarLabel(v) => SurfaceView { colorbar_label: v, ..self },
            SurfaceSetting::NumberFormatCb(v) => SurfaceView { number_format_cb: v, ..self },
            SurfaceSetting::SolidColor(v) => SurfaceView {
                solid_color: v,
                with_colormap: false,
                ..self
            },
            SurfaceSetting::LineColor(v) => SurfaceView { line_color: v, ..self },
            SurfaceSetting::LineStyle(v) => SurfaceView { line_style: v, ..self },
            SurfaceSetting::LineWidth(v) => SurfaceView { line_width: v, ..self },
        }
    }

    /// The options of the surface command, in their fixed order.
    pub open spec fn options_surface(self) -> Seq<char> {
        count_option(",rstride="@, self.row_stride) + count_option(",cstride="@, self.col_stride)
            + text_option(",color='"@, self.solid_color) + if_on(
            self.with_colormap,
            if self.colormap_name.len() > 0 {
                ",cmap=plt.get_cmap('"@ + self.colormap_name + "')"@
            } else {
                ",cmap=get_colormap("@ + decimal(self.colormap_index as nat) + ")"@
            },
        )
    }

    /// The options of the wireframe command, in their fixed order.
    pub open spec fn options_wireframe(self) -> Seq<char> {
        count_option(",rstride="@, self.row_stride) + count_option(",cstride="@, self.col_stride)
            + text_option(",color='"@, self.line_color) + text_option(
            ",linestyle='"@,
            self.line_style,
        ) + if_on(is_positive_numeral(self.line_width), ",linewidth="@ + self.line_width)
    }

    /// The options of the colorbar command.
    pub open spec fn options_colorbar(self) -> Seq<char> {
        text_option(",format='"@, self.number_format_cb)
    }

    /// The colorbar commands; they refer to the surface drawn in the same call.
    pub open spec fn colorbar_commands(self) -> Seq<char> {
        "cb=plt.colorbar(sf"@ + self.options_colorbar() + ")\n"@ + if_on(
            self.colorbar_label.len() > 0,
            "cb.ax.set_ylabel(r'"@ + self.colorbar_label + "')\n"@,
        )
    }

    /// The commands that one draw call appends, given the grids of x, y and z.
    pub open spec fn draw_commands(
        self,
        x: Seq<Seq<Seq<char>>>,
        y: Seq<Seq<Seq<char>>>,
        z: Seq<Seq<Seq<char>>>,
    ) -> Seq<char> {
        array_text("x"@, x) + array_text("y"@, y) + array_text("z"@, z) + "maybe_create_ax3d()\n"@
            + if_on(
            self.with_surface,
            "sf=AX3D.plot_surface(x,y,z"@ + self.options_surface() + ")\n"@,
        ) + if_on(
            self.with_wireframe,
            "AX3D.plot_wireframe(x,y,z"@ + self.options_wireframe() + ")\n"@,
        ) + if_on(self.with_surface && self.with_colorbar, self.colorbar_commands())
    }

    /// The surface after one draw call.
    pub open spec fn drawn(
        self,
        x: Seq<Seq<Seq<char>>>,
        y: Seq<Seq<Seq<char>>>,
        z: Seq<Seq<Seq<char>>>,
    ) -> SurfaceView {
        SurfaceView { buffer: self.buffer + self.draw_commands(x, y, z), ..self }
    }

    /// The surface with its buffer emptied.
    pub open spec fn cleared(self) -> SurfaceView {
        SurfaceView { buffer: Seq::empty(), ..self }
    }
}

/// Appends `prefix` and the numeral of `n` to `out`, unless `n` is zero.
fn push_count(out: &mut String, prefix: &str, n: usize)
    ensures
        final(out)@ == old(out)@ + count_option(prefix@, n),
{
    if n > 0 {
        out.append(prefix);
        write_decimal(out, n);
        assert(final(out)@ =~= old(out)@ + (prefix@ + decimal(n as nat)));
    } else {
        assert(final(out)@ =~= old(out)@ + Seq::<char>::empty());
    }
}

/// Appends `prefix`, `value` and a closing quote to `out`, unless `value` is empty.
fn push_text(out: &mut String, prefix: &str, value: &String)
    ensures
        final(out)@ == old(out)@ + text_option(prefix@, value@),
{
    if !value.as_str().is_empty() {
        out.append(prefix);
        out.append(value.as_str());
        out.append("'");
        assert(final(out)@ =~= old(out)@ + (prefix@ + value@ + "'"@));
    } else {
        assert(final(out)@ =~= old(out)@ + Seq::<char>::empty());
    }
}

/// A 3D surface, a wireframe, or both, drawn from grids of x, y and z.
///
/// Numbers are handed over as numerals, in the form that `Display` gives
/// them (`-0.5`, `0`, `2.5`).
pub struct Surface {
    row_stride: usize,
    col_stride: usize,
    with_surface: bool,
    with_wireframe: bool,
    colormap_index: usize,
    colormap_name: String,
    with_colormap: bool,
    with_colorbar: bool,
    colorbar_label: String,
    number_format_cb: String,
    solid_color: String,
    line_color: String,
    line_style: String,
    line_width: String,
    buffer: String,
}

impl View for Surface {
    type V = SurfaceView;

    closed spec fn view(&self) -> SurfaceView {
        SurfaceView {
            row_stride: self.row_stride,
            col_stride: self.col_stride,
            with_surface: self.with_surface,
            with_wireframe: self.with_wireframe,
            colormap_index: self.colormap_index,
            colormap_name: self.colormap_name@,
            with_colormap: self.with_colormap,
            with_colorbar: self.with_colorbar,
            colorbar_label: self.colorbar_label@,
            number_format_cb: self.number_format_cb@,
            solid_color: self.solid_color@,
            line_color: self.line_color@,
            line_style: self.line_style@,
            line_width: self.line_width@,
            buffer: self.buffer@,
        }
    }
}

impl Surface {
    /// Creates a surface with the default settings and an empty buffer.
    pub fn new() -> (r: Surface)
        ensures
            r@ == SurfaceView::initial(),
    {
        Surface {
            row_stride: 0,
            col_stride: 0,
            with_surface: true,
            with_wireframe: false,
            colormap_index: 0,
            colormap_name: String::new(),
            with_colormap: true,
            with_colorbar: false,
            colorbar_label: String::new(),
            number_format_cb: String::new(),
            solid_color: String::new(),
            line_color: String::from_str("black"),
            line_style: String::new(),
            line_width: String::from_str("0"),
            buffer: String::new(),
        }
    }

    /// Returns the options of the surface command.
    pub fn options_surface(&self) -> (r: String)
        ensures
            r@ == self@.options_surface(),
    {
        let mut opt = String::new();
        push_count(&mut opt, ",rstride=", self.row_stride);
        push_count(&mut opt, ",cstride=", self.col_stride);
        push_text(&mut opt, ",color='", &self.solid_color);
        if self.with_colormap {
            if !self.colormap_name.as_str().is_empty() {
                opt.append(",cmap=plt.get_cmap('");
                opt.append(self.colormap_name.as_str());
                opt.append("')");
            } else {
                opt.append(",cmap=get_colormap(");
                write_decimal(&mut opt, self.colormap_index);
                opt.append(")");
            }
        }
        assert(opt@ =~= self@.options_surface());
        opt
    }

    /// Returns the options of the wireframe command.
    pub fn options_wireframe(&self) -> (r: String)
        ensures
            r@ == self@.options_wireframe(),
    {
        let mut opt = String::new();
        push_count(&mut opt, ",rstride=", self.row_stride);
        push_count(&mut opt, ",cstride=", self.col_stride);
        push_text(&mut opt, ",color='", &self.line_color);
        push_text(&mut opt, ",linestyle='", &self.line_style);
        if positive_numeral(self.line_width.as_str()) {
            opt.append(",linewidth=");
            opt.append(self.line_width.as_str());
        }
        assert(opt@ =~= self@.options_wireframe());
        opt
    }

    /// Appends the commands that draw the grids `x`, `y`, `z`: the three
    /// arrays, then the surface, the wireframe and the colorbar, each when it is
    /// switched on. The colorbar refers to the surface, so it is drawn only
    /// together with it.
    pub fn draw(&mut self, x: &Vec<Vec<String>>, y: &Vec<Vec<String>>, z: &Vec<Vec<String>>)
        ensures
            final(self)@ == old(self)@.drawn(x.deep_view(), y.deep_view(), z.deep_view()),
    {
        let ghost start = self@;
        let mut buf = String::new();
        write_array(&mut buf, "x", x);
        write_array(&mut buf, "y", y);
        write_array(&mut buf, "z", z);
        buf.append("maybe_create_ax3d()\n");
        self.push_surface_command(&mut buf);
        self.push_wireframe_command(&mut buf);
        self.push_colorbar_commands(&mut buf);
        assert(buf@ =~= start.draw_commands(x.deep_view(), y.deep_view(), z.deep_view()));
        self.buffer.append(buf.as_str());
    }

    /// Sets the row stride; zero leaves it to the plotting engine.
    pub fn set_row_stride(&mut self, value: usize) -> (r: &mut Self)
        ensures
            r@ == old(self)@.set(SurfaceSetting::RowStride(value)),
            *final(self) == *final(r),
    {
        self.row_stride = value;
        self
    }

    /// Sets the column stride; zero leaves it to the plotting engine.
    pub fn set_col_stride(&mut self, value: usize) -> (r: &mut Self)
        ensures
            r@ == old(self)@.set(SurfaceSetting::ColStride(value)),
            *final(self) == *final(r),
    {
        self.col_stride = value;
        self
    }

    /// Sets whether the surface is drawn.
    pub fn set_with_surface(&mut self, flag: bool) -> (r: &mut Self)
        ensures
            r@ == old(self)@.set(SurfaceSetting::WithSurface(flag)),
            *final(self) == *final(r),
    {
        self.with_surface = flag;
        self
    }

    /// Sets whether the wireframe is drawn.
    pub fn set_with_wireframe(&mut self, flag: bool) -> (r: &mut Self)
        ensures
            r@ == old(self)@.set(SurfaceSetting::WithWireframe(flag)),
            *final(self) == *final(r),
    {
        self.with_wireframe = flag;
        self
    }

    /// Sets the colormap by its index in the palette of `colormap_name`
    /// (which wraps round), and forgets a colormap set by name.
    pub fn set_colormap_index(&mut self, index: usize) -> (r: &mut Self)
        ensures
            r@ == old(self)@.set(SurfaceSetting::ColormapIndex(index)),
            *final(self) == *final(r),
    {
        self.colormap_index = index;
        self.colormap_name = String::new();
        self
    }

    /// Sets the colormap by name; it takes precedence over the index.
    pub fn set_colormap_name(&mut self, name: &str) -> (r: &mut Self)
        ensures
            r@ == old(self)@.set(SurfaceSetting::ColormapName(name@)),
            *final(self) == *final(r),
    {
        self.colormap_name = String::from_str(name);
        self
    }

    /// Sets whether the surface is coloured by a colormap.
    pub fn set_with_colormap(&mut self, flag: bool) -> (r: &mut Self)
        ensures
            r@ == old(self)@.set(SurfaceSetting::WithColormap(flag)),
            *final(self) == *final(r),
    {
        self.with_colormap = flag;
        self
    }

    /// Sets whether a colorbar is drawn beside the surface.
    pub fn set_with_colorbar(&mut self, flag: bool) -> (r: &mut Self)
        ensures
            r@ == old(self)@.set(SurfaceSetting::WithColorbar(flag)),
            *final(self) == *final(r),
    {
        self.with_colorbar = flag;
        self
    }

    /// Sets the label of the colorbar.
    pub fn set_colorbar_label(&mut self, label: &str) -> (r: &mut Self)
        ensures
            r@ == old(self)@.set(SurfaceSetting::ColorbarLabel(label@)),
            *final(self) == *final(r),
    {
        self.colorbar_label = String::from_str(label);
        self
    }

    /// Sets the number format of the colorbar's labels (`%.3f`).
    pub fn set_number_format_cb(&mut self, format: &str) -> (r: &mut Self)
        ensures
            r@ == old(self)@.set(SurfaceSetting::NumberFormatCb(format@)),
            *final(self) == *final(r),
    {
        self.number_format_cb = String::from_str(format);
        self
    }

    /// Sets a solid colour for the surface, which switches the colormap off.
    pub fn set_solid_color(&mut self, color: &str) -> (r: &mut Self)
        ensures
            r@ == old(self)@.set(SurfaceSetting::SolidColor(color@)),
            *final(self) == *final(r),
    {
        self.solid_color = String::from_str(color);
        self.with_colormap = false;
        self
    }

    /// Sets the colour of the wireframe's lines.
    pub fn set_line_color(&mut self, color: &str) -> (r: &mut Self)
        ensures
            r@ == old(self)@.set(SurfaceSetting::LineColor(color@)),
            *final(self) == *final(r),
    {
        self.line_color = String::from_str(color);
        self
    }

    /// Sets the style of the wireframe's lines (`-`, `:`, `--`, `-.`).
    pub fn set_line_style(&mut self, style: &str) -> (r: &mut Self)
        ensures
            r@ == old(self)@.set(SurfaceSetting::LineStyle(style@)),
            *final(self) == *final(r),
    {
        self.line_style = String::from_str(style);
        self
    }

    /// Sets the width of the wireframe's lines, as a numeral; it is written
    /// out only where it denotes a number above zero.
    pub fn set_line_width(&mut self, width: &str) -> (r: &mut Self)
        ensures
            r@ == old(self)@.set(SurfaceSetting::LineWidth(width@)),
            *final(self) == *final(r),
    {
        self.line_width = String::from_str(width);
        self
    }

    /// Returns the row stride.
    pub fn row_stride(&self) -> (r: usize)
        ensures
            r == self@.row_stride,
    {
        self.row_stride
    }

    /// Returns the column stride.
    pub fn col_stride(&self) -> (r: usize)
        ensures
            r == self@.col_stride,
    {
        self.col_stride
    }

    /// Returns whether the surface is drawn.
    pub fn with_surface(&self) -> (r: bool)
        ensures
            r == self@.with_surface,
    {
        self.with_surface
    }

    /// Returns whether the wireframe is drawn.
    pub fn with_wireframe(&self) -> (r: bool)
        ensures
            r == self@.with_wireframe,
    {
        self.with_wireframe
    }

    /// Returns the colormap index.
    pub fn colormap_index(&self) -> (r: usize)
        ensures
            r == self@.colormap_index,
    {
        self.colormap_index
    }

    /// Returns the colormap name.
    pub fn colormap_name(&self) -> (r: &str)
        ensures
            r@ == self@.colormap_name,
    {
        self.colormap_name.as_str()
    }

    /// Returns whether a colormap colours the surface.
    pub fn with_colormap(&self) -> (r: bool)
        ensures
            r == self@.with_colormap,
    {
        self.with_colormap
    }

    /// Returns whether a colorbar is drawn.
    pub fn with_colorbar(&self) -> (r: bool)
        ensures
            r == self@.with_colorbar,
    {
        self.with_colorbar
    }

    /// Returns the colorbar's label.
    pub fn colorbar_label(&self) -> (r: &str)
        ensures
            r@ == self@.colorbar_label,
    {
        self.colorbar_label.as_str()
    }

    /// Returns the number format of the colorbar's labels.
    pub fn number_format_cb(&self) -> (r: &str)
        ensures
            r@ == self@.number_format_cb,
    {
        self.number_format_cb.as_str()
    }

    /// Returns the solid colour of the surface.
    pub fn solid_color(&self) -> (r: &str)
        ensures
            r@ == self@.solid_color,
    {
        self.solid_color.as_str()
    }

    /// Returns the colour of the wireframe's lines.
    pub fn line_color(&self) -> (r: &str)
        ensures
            r@ == self@.line_color,
    {
        self.line_color.as_str()
    }

    /// Returns the style of the wireframe's lines.
    pub fn line_style(&self) -> (r: &str)
        ensures
            r@ == self@.line_style,
    {
        self.line_style.as_str()
    }

    /// Returns the width of the wireframe's lines, as a numeral.
    pub fn line_width(&self) -> (r: &str)
        ensures
            r@ == self@.line_width,
    {
        self.line_width.as_str()
    }

    /// Appends the surface command to `out`, when the surface is switched on.
    fn push_surface_command(&self, out: &mut String)
        ensures
            final(out)@ == old(out)@ + if_on(
                self@.with_surface,
                "sf=AX3D.plot_surface(x,y,z"@ + self@.options_surface() + ")\n"@,
            ),
    {
        if self.with_surface {
            let opt = self.options_surface();
            out.append("sf=AX3D.plot_surface(x,y,z");
            out.append(opt.as_str());
            out.append(")\n");
            assert(final(out)@ =~= old(out)@ + ("sf=AX3D.plot_surface(x,y,z"@ + opt@ + ")\n"@));
        } else {
            assert(final(out)@ =~= old(out)@ + Seq::<char>::empty());
        }
    }

    /// Appends the wireframe command to `out`, when the wireframe is switched on.
    fn push_wireframe_command(&self, out: &mut String)
        ensures
            final(out)@ == old(out)@ + if_on(
                self@.with_wireframe,
                "AX3D.plot_wireframe(x,y,z"@ + self@.options_wireframe() + ")\n"@,
            ),
    {
        if self.with_wireframe {
            let opt = self.options_wireframe();
            out.append("AX3D.plot_wireframe(x,y,z");
            out.append(opt.as_str());
            out.append(")\n");
            assert(final(out)@ =~= old(out)@ + ("AX3D.plot_wireframe(x,y,z"@ + opt@ + ")\n"@));
        } else {
            assert(final(out)@ =~= old(out)@ + Seq::<char>::empty());
        }
    }

    /// Appends the colorbar commands to `out`, when both the surface and the
    /// colorbar are switched on.
    fn push_colorbar_commands(&self, out: &mut String)
        ensures
            final(out)@ == old(out)@ + if_on(
                self@.with_surface && self@.with_colorbar,
                self@.colorbar_commands(),
            ),
    {
        if self.with_surface && self.with_colorbar {
            let opt = self.options_colorbar();
            out.append("cb=plt.colorbar(sf");
            out.append(opt.as_str());
            out.append(")\n");
            let ghost mid = out@;
            if !self.colorbar_label.as_str().is_empty() {
                out.append("cb.ax.set_ylabel(r'");
                out.append(self.colorbar_label.as_str());
                out.append("')\n");
                assert(out@ =~= mid + ("cb.ax.set_ylabel(r'"@ + self@.colorbar_label + "')\n"@));
            } else {
                assert(out@ =~= mid + Seq::<char>::empty());
            }
            assert(final(out)@ =~= old(out)@ + self@.colorbar_commands());
        } else {
            assert(final(out)@ =~= old(out)@ + Seq::<char>::empty());
        }
    }

    /// Returns the options of the colorbar command.
    pub fn options_colorbar(&self) -> (r: String)
        ensures
            r@ == self@.options_colorbar(),
    {
        let mut opt = String::new();
        push_text(&mut opt, ",format='", &self.number_format_cb);
        assert(opt@ =~= self@.options_colorbar());
        opt
    }
}

/// The number of colormaps in the palette that a colormap index picks from.
pub const COLORMAP_COUNT: usize = 7;

/// The palette that a colormap index picks from, in order.
pub open spec fn colormap_palette() -> Seq<Seq<char>> {
    seq!["bwr"@, "RdBu"@, "hsv"@, "jet"@, "terrain"@, "pink"@, "Greys"@]
}

/// The colormap that `index` selects; past the end it starts over.
pub open spec fn colormap_of(index: nat) -> Seq<char> {
    colormap_palette()[(index % (COLORMAP_COUNT as nat)) as int]
}

/// Returns the name of the colormap that `index` selects (the one that the
/// prologue's `get_colormap` gives the engine).
pub fn palette_colormap(index: usize) -> (r: &'static str)
    ensures
        r@ == colormap_of(index as nat),
{
    let k = index % COLORMAP_COUNT;
    if k == 0 {
        "bwr"
    } else if k == 1 {
        "RdBu"
    } else if k == 2 {
        "hsv"
    } else if k == 3 {
        "jet"
    } else if k == 4 {
        "terrain"
    } else if k == 5 {
        "pink"
    } else {
        "Greys"
    }
}

/// An index and that index plus the size of the palette select the same
/// colormap; in particular the size itself selects the first one.
pub proof fn lemma_colormap_wraps(index: nat)
    ensures
        colormap_of(index + COLORMAP_COUNT as nat) == colormap_of(index),
        colormap_of(COLORMAP_COUNT as nat) == colormap_of(0),
{
    assert((index + 7) % 7 == index % 7) by (nonlinear_arith);
}

impl SurfaceSetting {
    /// Which setter this call is of.
    pub open spec fn setter(self) -> int {
        match self {
            SurfaceSetting::RowStride(_) => 0,
            SurfaceSetting::ColStride(_) => 1,
            SurfaceSetting::WithSurface(_) => 2,
            SurfaceSetting::WithWireframe(_) => 3,
            SurfaceSetting::ColormapIndex(_) => 4,
            SurfaceSetting::ColormapName(_) => 5,
            SurfaceSetting::WithColormap(_) => 6,
            SurfaceSetting::WithColorbar(_) => 7,
            SurfaceSetting::ColorbarLabel(_) => 8,
            SurfaceSetting::NumberFormatCb(_) => 9,
            SurfaceSetting::SolidColor(_) => 10,
            SurfaceSetting::LineColor(_) => 11,
            SurfaceSetting::LineStyle(_) => 12,
            SurfaceSetting::LineWidth(_) => 13,
        }
    }

    /// Whether the order of the two calls matters: the same setter with
    /// different values, or a pair of setters of which one also resets what the
    /// other sets (the colormap index forgets the name; a solid colour switches
    /// the colormap off).
    pub open spec fn interferes(self, other: SurfaceSetting) -> bool {
        let (a, b) = (self.setter(), other.setter());
        ||| a == b && self != other
        ||| a == 4 && b == 5
        ||| a == 5 && b == 4
        ||| a == 10 && b == 6
        ||| a == 6 && b == 10
    }
}

/// Calling a setter twice with the same value leaves the surface as one call does.
pub proof fn lemma_setter_idempotent(v: SurfaceView, s: SurfaceSetting)
    ensures
        v.set(s).set(s) == v.set(s),
{
}

/// Two setter calls that do not interfere give the same settings, and so the
/// same option fragments, in either order.
pub proof fn lemma_setters_commute(v: SurfaceView, a: SurfaceSetting, b: SurfaceSetting)
    requires
        !a.interferes(b),
    ensures
        v.set(a).set(b) == v.set(b).set(a),
        v.set(a).set(b).options_surface() == v.set(b).set(a).options_surface(),
        v.set(a).set(b).options_wireframe() == v.set(b).set(a).options_wireframe(),
        v.set(a).set(b).options_colorbar() == v.set(b).set(a).options_colorbar(),
{
}

/// Settings that hold zero, an empty text or a switched-off flag add nothing
/// to the option fragments.
pub proof fn lemma_unset_options_omitted(v: SurfaceView)
    ensures
        v.row_stride == 0 && v.col_stride == 0 && v.solid_color.len() == 0 && !v.with_colormap
            ==> v.options_surface().len() == 0,
        v.row_stride == 0 && v.col_stride == 0 && v.line_color.len() == 0 && v.line_style.len()
            == 0 && !is_positive_numeral(v.line_width) ==> v.options_wireframe().len() == 0,
        v.number_format_cb.len() == 0 ==> v.options_colorbar().len() == 0,
{
}

/// Emptying the buffer and drawing the same grids again gives the same text
/// that the first draw appended; from an empty buffer, the same buffer.
pub proof fn lemma_redraw_after_clear(
    v: SurfaceView,
    x: Seq<Seq<Seq<char>>>,
    y: Seq<Seq<Seq<char>>>,
    z: Seq<Seq<Seq<char>>>,
)
    ensures
        v.drawn(x, y, z).cleared().drawn(x, y, z).buffer == v.drawn(x, y, z).buffer.skip(
            v.buffer.len() as int,
        ),
        v.buffer.len() == 0 ==> v.drawn(x, y, z).cleared().drawn(x, y, z) == v.drawn(x, y, z),
{
    let first = v.drawn(x, y, z);
    assert(first.cleared().drawn(x, y, z).buffer =~= first.buffer.skip(v.buffer.len() as int));
    if v.buffer.len() == 0 {
        assert(first.cleared().drawn(x, y, z).buffer =~= first.buffer);
    }
}

impl GraphMaker for Surface {
    open spec fn buffer_view(&self) -> Seq<char> {
        self@.buffer
    }

    fn get_buffer(&self) -> (r: &String) {
        &self.buffer
    }

    fn clear_buffer(&mut self)
        ensures
            final(self)@ == old(self)@.cleared(),
    {
        self.buffer = String::new();
    }
}

} // verus!
