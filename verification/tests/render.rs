use tinybit::{
    Camera, Color, Directive, DummyTarget, Emitter, Pixel, RenderTarget, Renderer, ScreenPos,
    ScreenSize, Viewport, WorldPos, WorldSize,
};

fn camera() -> Camera {
    let pos = WorldPos::new(30, 30);
    let size = WorldSize::new(6, 6);
    Camera::new(pos, size)
}

fn viewport() -> Viewport {
    let pos = ScreenPos::new(2, 2);
    let size = ScreenSize::new(6, 6);
    Viewport::new(pos, size)
}

struct Recorder {
    pixels: Vec<Pixel>,
    cleared: usize,
}

impl RenderTarget for Recorder {
    fn render(&mut self, pixels: Vec<Pixel>) {
        self.pixels = pixels;
    }

    fn clear(&mut self) {
        self.cleared += 1;
    }
}

#[test]
fn render_pixels() {
    let cam = camera();
    let mut view = viewport();

    let min_x = cam.bounding_box.min_x();
    let min_y = cam.bounding_box.min_y();

    let a = ('A', WorldPos::new(min_x, min_y));
    let a = Pixel::new(a.0, cam.to_screen(a.1), None, None);

    view.draw_pixel(a);
    let mut renderer = Renderer::new(Recorder { pixels: Vec::new(), cleared: 0 });

    renderer.render(&mut view);

    let a = Pixel::new('A', ScreenPos::new(2, 2), None, None); // 2, 2 because of the viewport offset
    let pixels = vec![a];
    assert_eq!(pixels, renderer.target.pixels);
}

#[test]
fn renderer_takes_one_frame_for_each_render() {
    let mut view = viewport();
    let mut renderer = Renderer::new(Recorder { pixels: Vec::new(), cleared: 0 });
    view.draw_pixel(Pixel::white('A', ScreenPos::new(1, 1)));
    renderer.render(&mut view);
    assert_eq!(renderer.target.pixels, vec![Pixel::white('A', ScreenPos::new(3, 3))]);
    renderer.render(&mut view);
    assert_eq!(renderer.target.pixels, vec![Pixel::white(' ', ScreenPos::new(3, 3))]);
    renderer.render(&mut view);
    assert_eq!(renderer.target.pixels, vec![]);
    renderer.clear();
    renderer.clear();
    assert_eq!(renderer.target.cleared, 2);
}

#[test]
fn dummy_target_shows_nothing_and_takes_the_frame() {
    let mut view = viewport();
    let mut renderer = Renderer::new(DummyTarget);
    view.draw_pixel(Pixel::white('A', ScreenPos::new(1, 1)));
    renderer.render(&mut view);
    renderer.clear();
    assert_eq!(view.pixels(), vec![Pixel::white(' ', ScreenPos::new(3, 3))]);
}

#[test]
fn first_pixel_sets_both_colours_even_the_default() {
    let mut emitter = Emitter::new();
    assert_eq!(emitter.last_color_fg, None);
    assert_eq!(emitter.last_color_bg, None);
    let directives = emitter.emit(vec![Pixel::white('x', ScreenPos::new(1, 2))]);
    assert_eq!(
        directives,
        vec![
            Directive::MoveTo(1, 2),
            Directive::SetForeground(Color::Reset),
            Directive::SetBackground(Color::Reset),
            Directive::Print('x'),
            Directive::Flush,
        ]
    );
    assert_eq!(emitter.last_color_fg, Some(None));
    assert_eq!(emitter.last_color_bg, Some(None));
}

#[test]
fn colour_is_set_only_where_it_changes() {
    let mut emitter = Emitter::new();
    let red_on_blue = |c: char, x: u16| Pixel::new(c, ScreenPos::new(x, 0), Some(Color::Red), Some(Color::Blue));
    let directives = emitter.emit(vec![
        red_on_blue('a', 0),
        red_on_blue('b', 1),
        Pixel::new('c', ScreenPos::new(2, 0), Some(Color::Green), Some(Color::Blue)),
        Pixel::new('d', ScreenPos::new(3, 0), Some(Color::Green), None),
        Pixel::new('e', ScreenPos::new(9, 4), None, None),
        red_on_blue('f', 0),
    ]);
    assert_eq!(
        directives,
        vec![
            Directive::MoveTo(0, 0),
            Directive::SetForeground(Color::Red),
            Directive::SetBackground(Color::Blue),
            Directive::Print('a'),
            Directive::MoveTo(1, 0),
            Directive::Print('b'),
            Directive::MoveTo(2, 0),
            Directive::SetForeground(Color::Green),
            Directive::Print('c'),
            Directive::MoveTo(3, 0),
            Directive::SetBackground(Color::Reset),
            Directive::Print('d'),
            Directive::MoveTo(9, 4),
            Directive::SetForeground(Color::Reset),
            Directive::Print('e'),
            Directive::MoveTo(0, 0),
            Directive::SetForeground(Color::Red),
            Directive::SetBackground(Color::Blue),
            Directive::Print('f'),
            Directive::Flush,
        ]
    );
    assert_eq!(emitter.last_color_fg, Some(Some(Color::Red)));
    assert_eq!(emitter.last_color_bg, Some(Some(Color::Blue)));
}

#[test]
fn colours_are_remembered_from_frame_to_frame() {
    let mut emitter = Emitter::new();
    let pixel = Pixel::new('a', ScreenPos::new(5, 6), Some(Color::Yellow), None);
    emitter.emit(vec![pixel]);
    assert_eq!(
        emitter.emit(vec![pixel]),
        vec![Directive::MoveTo(5, 6), Directive::Print('a'), Directive::Flush]
    );
    // the default, once set, is not set again
    assert_eq!(
        emitter.emit(vec![Pixel::new('b', ScreenPos::new(0, 0), Some(Color::Yellow), None)]),
        vec![Directive::MoveTo(0, 0), Directive::Print('b'), Directive::Flush]
    );
}

#[test]
fn empty_frame_is_flushed_and_leaves_the_colours() {
    let mut emitter = Emitter::new();
    assert_eq!(emitter.emit(vec![]), vec![Directive::Flush]);
    assert_eq!(emitter, Emitter::new());
    emitter.emit(vec![Pixel::new('a', ScreenPos::new(0, 0), Some(Color::Grey), Some(Color::Black))]);
    let before = emitter;
    assert_eq!(emitter.emit(vec![]), vec![Directive::Flush]);
    assert_eq!(emitter, before);
}

#[test]
fn paint_is_the_colour_or_the_default() {
    assert_eq!(tinybit::render::paint(None), Color::Reset);
    assert_eq!(tinybit::render::paint(Some(Color::DarkCyan)), Color::DarkCyan);
    assert_eq!(tinybit::render::paint(Some(Color::Reset)), Color::Reset);
}

#[test]
fn frame_of_a_viewport_through_the_emitter() {
    let mut view = Viewport::new(ScreenPos::new(0, 4), ScreenSize::new(3, 1));
    let mut emitter = Emitter::new();
    view.draw_pixel(Pixel::new('@', ScreenPos::new(1, 0), Some(Color::White), None));
    assert_eq!(
        emitter.emit(view.pixels()),
        vec![
            Directive::MoveTo(1, 4),
            Directive::SetForeground(Color::White),
            Directive::SetBackground(Color::Reset),
            Directive::Print('@'),
            Directive::Flush,
        ]
    );
    assert_eq!(
        emitter.emit(view.pixels()),
        vec![
            Directive::MoveTo(1, 4),
            Directive::SetForeground(Color::Reset),
            Directive::Print(' '),
            Directive::Flush,
        ]
    );
    assert_eq!(emitter.emit(view.pixels()), vec![Directive::Flush]);
}
