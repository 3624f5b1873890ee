use vstd::prelude::*;

use crate::graph::GraphMaker;
use crate::surface::if_on;

verus! {

/// What a [`Plot`] holds: the commands of the drawables added so far, in the
/// order they were added, and the settings of the whole figure.
pub struct PlotView {
    pub buffer: Seq<char>,
    pub title: Seq<char>,
    pub x_label: Seq<char>,
    pub y_label: Seq<char>,
    pub grid: bool,
    pub equal_axes: bool,
    pub log_x: bool,
    pub log_y: bool,
}

/// The command `prefix` with the raw string `text`, or nothing when `text` is empty.
pub open spec fn labelled(prefix: Seq<char>, text: Seq<char>) -> Seq<char> {
    if_on(text.len() > 0, prefix + text + "')\n"@)
}

impl PlotView {
    /// A plot with no drawables and no settings.
    pub open spec fn initial() -> PlotView {
        PlotView {
            buffer: Seq::empty(),
            title: Seq::empty(),
            x_label: Seq::empty(),
            y_label: Seq::empty(),
            grid: false,
            equal_axes: false,
            log_x: false,
            log_y: false,
        }
    }

    /// The plot after a drawable with the commands `commands` is added.
    pub open spec fn added(self, commands: Seq<char>) -> PlotView {
        PlotView { buffer: self.buffer + commands, ..self }
    }

    /// The commands that precede the drawables: the scale of each axis.
    pub open spec fn setup(self) -> Seq<char> {
        if_on(self.log_x, "plt.xscale('log')\n"@) + if_on(self.log_y, "plt.yscale('log')\n"@)
    }

    /// The commands that follow the drawables: grid, title, labels, aspect,
    /// and the command that saves the figure to `path`.
    pub open spec fn teardown(self, path: Seq<char>) -> Seq<char> {
        if_on(self.grid, "plt.grid(linestyle='--',color='grey',zorder=-1000)\n"@) + labelled(
            "plt.title(r'"@,
            self.title,
        ) + labelled("plt.xlabel(r'"@, self.x_label) + labelled("plt.ylabel(r'"@, self.y_label)
            + if_on(self.equal_axes, "plt.axis('equal')\n"@) + "plt.savefig(r'"@ + path
            + "', bbox_inches='tight')\n"@
    }

    /// The whole script that draws the figure and saves it to `path`.
    pub open spec fn script(self, path: Seq<char>) -> Seq<char> {
        self.setup() + self.buffer + self.teardown(path)
    }
}

/// Appends the command `prefix` with the raw string `text` to `out`, unless
/// `text` is empty.
fn push_labelled(out: &mut String, prefix: &str, text: &String)
    ensures
        final(out)@ == old(out)@ + labelled(prefix@, text@),
{
    if !text.as_str().is_empty() {
        out.append(prefix);
        out.append(text.as_str());
        out.append("')\n");
        assert(final(out)@ =~= old(out)@ + (prefix@ + text@ + "')\n"@));
    } else {
        assert(final(out)@ =~= old(out)@ + Seq::<char>::empty());
    }
}

/// Appends `s` to `out` when `flag` is on.
fn push_when(out: &mut String, flag: bool, s: &str)
    ensures
        final(out)@ == old(out)@ + if_on(flag, s@),
{
    if flag {
        out.append(s);
    } else {
        assert(final(out)@ =~= old(out)@ + Seq::<char>::empty());
    }
}

/// A figure composed of drawables, in the order they are added.
///
/// A drawable's commands are copied when it is added: what it draws later
/// is not part of this figure.
pub struct Plot {
    buffer: String,
    title: String,
    x_label: String,
    y_label: String,
    grid: bool,
    equal_axes: bool,
    log_x: bool,
    log_y: bool,
}

impl View for Plot {
    type V = PlotView;

    closed spec fn view(&self) -> PlotView {
        PlotView {
            buffer: self.buffer@,
            title: self.title@,
            x_label: self.x_label@,
            y_label: self.y_label@,
            grid: self.grid,
            equal_axes: self.equal_axes,
            log_x: self.log_x,
            log_y: self.log_y,
        }
    }
}

impl Plot {
    /// Creates a plot with no drawables and no settings.
    pub fn new() -> (r: Plot)
        ensures
            r@ == PlotView::initial(),
    {
        Plot {
            buffer: String::new(),
            title: String::new(),
            x_label: String::new(),
            y_label: String::new(),
            grid: false,
            equal_axes: false,
            log_x: false,
            log_y: false,
        }
    }

    /// Adds the commands that `graph` holds now, after those added before.
    pub fn add<G: GraphMaker>(&mut self, graph: &G) -> (r: &mut Self)
        ensures
            r@ == old(self)@.added(graph.buffer_view()),
            *final(self) == *final(r),
    {
        self.buffer.append(graph.get_buffer().as_str());
        self
    }

    /// Sets the title of the figure.
    pub fn set_title(&mut self, title: &str) -> (r: &mut Self)
        ensures
            r@ == (PlotView { title: title@, ..old(self)@ }),
            *final(self) == *final(r),
    {
        self.title = String::from_str(title);
        self
    }

    /// Switches the grid on and sets the labels of the two axes.
    pub fn grid_and_labels(&mut self, x_label: &str, y_label: &str) -> (r: &mut Self)
        ensures
            r@ == (PlotView { grid: true, x_label: x_label@, y_label: y_label@, ..old(self)@ }),
            *final(self) == *final(r),
    {
        self.grid = true;
        self.x_label = String::from_str(x_label);
        self.y_label = String::from_str(y_label);
        self
    }

    /// Sets whether both axes have the same scale.
    pub fn set_equal_axes(&mut self, flag: bool) -> (r: &mut Self)
        ensures
            r@ == (PlotView { equal_axes: flag, ..old(self)@ }),
            *final(self) == *final(r),
    {
        self.equal_axes = flag;
        self
    }

    /// Sets whether the x axis has a logarithmic scale.
    pub fn set_log_x(&mut self, flag: bool) -> (r: &mut Self)
        ensures
            r@ == (PlotView { log_x: flag, ..old(self)@ }),
            *final(self) == *final(r),
    {
        self.log_x = flag;
        self
    }

    /// Sets whether the y axis has a logarithmic scale.
    pub fn set_log_y(&mut self, flag: bool) -> (r: &mut Self)
        ensures
            r@ == (PlotView { log_y: flag, ..old(self)@ }),
            *final(self) == *final(r),
    {
        self.log_y = flag;
        self
    }

    /// Appends the commands that precede the drawables to `out`.
    fn push_setup(&self, out: &mut String)
        ensures
            final(out)@ == old(out)@ + self@.setup(),
    {
        push_when(out, self.log_x, "plt.xscale('log')\n");
        push_when(out, self.log_y, "plt.yscale('log')\n");
        assert(final(out)@ =~= old(out)@ + self@.setup());
    }

    /// Appends the commands that follow the drawables to `out`.
    fn push_teardown(&self, out: &mut String, path: &str)
        ensures
            final(out)@ == old(out)@ + self@.teardown(path@),
    {
        let ghost v = self@;
        let ghost start = out@;
        push_when(out, self.grid, "plt.grid(linestyle='--',color='grey',zorder=-1000)\n");
        push_labelled(out, "plt.title(r'", &self.title);
        let ghost a = if_on(v.grid, "plt.grid(linestyle='--',color='grey',zorder=-1000)\n"@)
            + labelled("plt.title(r'"@, v.title);
        assert(out@ =~= start + a);
        push_labelled(out, "plt.xlabel(r'", &self.x_label);
        push_labelled(out, "plt.ylabel(r'", &self.y_label);
        let ghost b = a + labelled("plt.xlabel(r'"@, v.x_label) + labelled("plt.ylabel(r'"@, v.y_label);
        assert(out@ =~= start + b);
        push_when(out, self.equal_axes, "plt.axis('equal')\n");
        out.append("plt.savefig(r'");
        out.append(path);
        out.append("', bbox_inches='tight')\n");
        assert(out@ =~= start + v.teardown(path@));
    }

    /// Returns the script that draws the figure and saves it to `path`.
    pub fn script(&self, path: &str) -> (r: String)
        ensures
            r@ == self@.script(path@),
    {
        let mut out = String::new();
        self.push_setup(&mut out);
        out.append(self.buffer.as_str());
        self.push_teardown(&mut out, path);
        assert(out@ =~= self@.script(path@));
        out
    }
}

/// The script holds the commands of the drawables in the order they were
/// added, between the figure's setup and its teardown.
pub proof fn lemma_buffers_in_add_order(
    p: PlotView,
    first: Seq<char>,
    second: Seq<char>,
    third: Seq<char>,
    path: Seq<char>,
)
    ensures
        p.added(first).added(second).added(third).script(path) == p.setup() + p.buffer + first
            + second + third + p.teardown(path),
{
    assert(p.added(first).added(second).added(third).script(path) =~= p.setup() + p.buffer + first
        + second + third + p.teardown(path));
}

} // verus!
