use plotpy::{GraphMaker, Surface};

fn grid(m: &[[f64; 3]; 3]) -> Vec<Vec<String>> {
    m.iter().map(|row| row.iter().map(|v| v.to_string()).collect()).collect()
}

fn nested(m: &Vec<Vec<f64>>) -> Vec<Vec<String>> {
    m.iter().map(|row| row.iter().map(|v| v.to_string()).collect()).collect()
}

#[test]
fn new_works() {
    let surface = Surface::new();
    assert_eq!(surface.row_stride(), 0);
    assert_eq!(surface.col_stride(), 0);
    assert_eq!(surface.with_surface(), true);
    assert_eq!(surface.with_wireframe(), false);
    assert_eq!(surface.colormap_index(), 0);
    assert_eq!(surface.colormap_name().len(), 0);
    assert_eq!(surface.with_colorbar(), false);
    assert_eq!(surface.colorbar_label().len(), 0);
    assert_eq!(surface.number_format_cb().len(), 0);
    assert_eq!(surface.line_color(), "black".to_string());
    assert_eq!(surface.line_style().len(), 0);
    assert_eq!(surface.line_width().parse::<f64>().unwrap(), 0.0);
    assert_eq!(surface.get_buffer().len(), 0);
}

#[test]
fn options_surface_works() {
    let mut surface = Surface::new();
    surface.set_row_stride(3).set_col_stride(4);
    let opt = surface.options_surface();
    assert_eq!(opt, ",rstride=3,cstride=4,cmap=get_colormap(0)");

    surface.set_colormap_name("Pastel1");
    let opt = surface.options_surface();
    assert_eq!(opt, ",rstride=3,cstride=4,cmap=plt.get_cmap('Pastel1')");

    surface.set_colormap_index(3);
    let opt = surface.options_surface();
    assert_eq!(opt, ",rstride=3,cstride=4,cmap=get_colormap(3)");

    surface.set_colormap_name("turbo");
    let opt = surface.options_surface();
    assert_eq!(opt, ",rstride=3,cstride=4,cmap=plt.get_cmap('turbo')");

    surface.set_with_colormap(false);
    let opt = surface.options_surface();
    assert_eq!(opt, ",rstride=3,cstride=4");

    surface.set_with_colormap(true).set_solid_color("blue");
    let opt = surface.options_surface();
    assert_eq!(surface.with_colormap(), false);
    assert_eq!(opt, ",rstride=3,cstride=4,color='blue'");
}

#[test]
fn options_wireframe_works() {
    let mut surface = Surface::new();
    surface
        .set_row_stride(3)
        .set_col_stride(4)
        .set_line_color("red")
        .set_line_style("--")
        .set_line_width(&2.5_f64.to_string());
    let opt = surface.options_wireframe();
    assert_eq!(opt, ",rstride=3,cstride=4,color='red',linestyle='--',linewidth=2.5");
}

#[test]
fn options_colorbar_works() {
    let mut surface = Surface::new();
    surface.set_number_format_cb("%.3f");
    let opt = surface.options_colorbar();
    assert_eq!(opt, ",format='%.3f'");
}

#[test]
fn draw_works() {
    let mut surface = Surface::new();
    surface
        .set_with_wireframe(true)
        .set_with_colorbar(true)
        .set_colorbar_label("temperature");
    let x = vec![vec![-0.5, 0.0, 0.5], vec![-0.5, 0.0, 0.5], vec![-0.5, 0.0, 0.5]];
    let y = vec![vec![-0.5, -0.5, -0.5], vec![0.0, 0.0, 0.0], vec![0.5, 0.5, 0.5]];
    let z = vec![vec![0.50, 0.25, 0.50], vec![0.25, 0.00, 0.25], vec![0.50, 0.25, 0.50]];
    surface.draw(&nested(&x), &nested(&y), &nested(&z));
    let b: &str = "x=np.array([[-0.5,0,0.5,],[-0.5,0,0.5,],[-0.5,0,0.5,],],dtype=float)\n\
                   y=np.array([[-0.5,-0.5,-0.5,],[0,0,0,],[0.5,0.5,0.5,],],dtype=float)\n\
                   z=np.array([[0.5,0.25,0.5,],[0.25,0,0.25,],[0.5,0.25,0.5,],],dtype=float)\n\
                   maybe_create_ax3d()\n\
                   sf=AX3D.plot_surface(x,y,z,cmap=get_colormap(0))\n\
                   AX3D.plot_wireframe(x,y,z,color='black')\n\
                   cb=plt.colorbar(sf)\n\
                   cb.ax.set_ylabel(r'temperature')\n";
    assert_eq!(surface.get_buffer(), b);
    surface.clear_buffer();
    assert_eq!(surface.get_buffer(), "");
}

#[test]
fn draw_with_matrix_works() {
    let mut surface = Surface::new();
    let x = grid(&[[-0.5, 0.0, 0.5], [-0.5, 0.0, 0.5], [-0.5, 0.0, 0.5]]);
    let y = grid(&[[-0.5, -0.5, -0.5], [0.0, 0.0, 0.0], [0.5, 0.5, 0.5]]);
    let z = grid(&[[0.50, 0.25, 0.50], [0.25, 0.00, 0.25], [0.50, 0.25, 0.50]]);
    surface.draw(&x, &y, &z);
    let b: &str = "x=np.array([[-0.5,0,0.5,],[-0.5,0,0.5,],[-0.5,0,0.5,],],dtype=float)\n\
                   y=np.array([[-0.5,-0.5,-0.5,],[0,0,0,],[0.5,0.5,0.5,],],dtype=float)\n\
                   z=np.array([[0.5,0.25,0.5,],[0.25,0,0.25,],[0.5,0.25,0.5,],],dtype=float)\n\
                   maybe_create_ax3d()\n\
                   sf=AX3D.plot_surface(x,y,z,cmap=get_colormap(0))\n";
    assert_eq!(surface.get_buffer(), b);
}

#[test]
fn default_strides_are_omitted() {
    let surface = Surface::new();
    assert_eq!(surface.options_surface(), ",cmap=get_colormap(0)");
    assert_eq!(surface.options_wireframe(), ",color='black'");
    assert_eq!(surface.options_colorbar(), "");
    assert!(!surface.options_surface().contains("rstride"));
    assert!(!surface.options_wireframe().contains("cstride"));
}

#[test]
fn zero_and_negative_line_widths_are_omitted() {
    let mut surface = Surface::new();
    surface.set_line_color("");
    surface.set_line_width(&0.0_f64.to_string());
    assert_eq!(surface.options_wireframe(), "");
    surface.set_line_width(&(-0.0_f64).to_string());
    assert_eq!(surface.options_wireframe(), "");
    surface.set_line_width(&(-1.5_f64).to_string());
    assert_eq!(surface.options_wireframe(), "");
    surface.set_line_width(&0.05_f64.to_string());
    assert_eq!(surface.options_wireframe(), ",linewidth=0.05");
    surface.set_line_width(&f64::INFINITY.to_string());
    assert_eq!(surface.options_wireframe(), ",linewidth=inf");
    surface.set_line_width(&f64::NAN.to_string());
    assert_eq!(surface.options_wireframe(), "");
}

#[test]
fn large_strides_are_written_in_full() {
    let mut surface = Surface::new();
    surface.set_row_stride(10).set_col_stride(1207).set_with_colormap(false);
    assert_eq!(surface.options_surface(), ",rstride=10,cstride=1207");
    surface.set_row_stride(usize::MAX).set_col_stride(0);
    assert_eq!(surface.options_surface(), format!(",rstride={}", usize::MAX));
}

#[test]
fn setters_in_either_order_give_the_same_fragments() {
    let mut a = Surface::new();
    a.set_row_stride(2).set_line_style(":").set_colormap_name("jet").set_number_format_cb("%g");
    let mut b = Surface::new();
    b.set_number_format_cb("%g").set_colormap_name("jet").set_line_style(":").set_row_stride(2);
    assert_eq!(a.options_surface(), b.options_surface());
    assert_eq!(a.options_wireframe(), b.options_wireframe());
    assert_eq!(a.options_colorbar(), b.options_colorbar());
    a.set_row_stride(2);
    assert_eq!(a.options_surface(), b.options_surface());
}

#[test]
fn solid_color_switches_colormap_off() {
    let mut surface = Surface::new();
    surface.set_solid_color("gold");
    assert_eq!(surface.with_colormap(), false);
    assert_eq!(surface.solid_color(), "gold");
    assert_eq!(surface.options_surface(), ",color='gold'");
}

#[test]
fn colorbar_needs_the_surface() {
    let mut surface = Surface::new();
    surface.set_with_surface(false).set_with_colorbar(true).set_colorbar_label("t");
    let empty: Vec<Vec<String>> = Vec::new();
    surface.draw(&empty, &empty, &empty);
    assert_eq!(
        surface.get_buffer(),
        "x=np.array([],dtype=float)\ny=np.array([],dtype=float)\nz=np.array([],dtype=float)\nmaybe_create_ax3d()\n"
    );
}

#[test]
fn redraw_after_clear_gives_the_same_text() {
    let mut surface = Surface::new();
    surface.set_with_wireframe(true).set_number_format_cb("%.1f").set_with_colorbar(true);
    let x = grid(&[[1.0, 2.0, 3.0], [1.0, 2.0, 3.0], [1.0, 2.0, 3.0]]);
    surface.draw(&x, &x, &x);
    let first = surface.get_buffer().clone();
    surface.clear_buffer();
    surface.draw(&x, &x, &x);
    assert_eq!(surface.get_buffer(), &first);
    surface.draw(&x, &x, &x);
    assert_eq!(surface.get_buffer(), &format!("{}{}", first, first));
}
