use bevy_psx::{
    draw_and_swap, update_clear_color, ClearColor, Color, Framebuffer, PresentStep,
    RenderSchedule, Resolution, VideoMode,
};

#[test]
fn same_background_twice_writes_once() {
    let mut fb = Framebuffer::new(VideoMode::NTSC, Resolution::W320xH240);
    let c = Color { red: 1, green: 2, blue: 3 };
    let mut writes = 0;
    if fb.set_background(c) {
        writes += 1;
    }
    if fb.set_background(c) {
        writes += 1;
    }
    assert_eq!(writes, 1);
    assert!(fb.set_background(Color { red: 1, green: 2, blue: 4 }));
}

#[test]
fn clear_color_update_steps() {
    let mut fb = Framebuffer::new(VideoMode::PAL, Resolution::W320xH240);
    let clear = ClearColor::default();
    assert_eq!(clear, ClearColor(Color { red: 43, green: 44, blue: 47 }));
    assert_eq!(update_clear_color(&mut fb, &clear), vec![PresentStep::SetBackground(clear.0)]);
    assert!(update_clear_color(&mut fb, &clear).is_empty());
}

#[test]
fn vblank_wait_skipped_while_polling() {
    let mut fb = Framebuffer::new(VideoMode::NTSC, Resolution::W320xH240);
    assert_eq!(fb.displayed_buffer(), 0);
    assert_eq!(draw_and_swap(&mut fb, true), vec![PresentStep::DrawSync, PresentStep::Swap]);
    assert_eq!(fb.displayed_buffer(), 1);
    assert_eq!(
        draw_and_swap(&mut fb, false),
        vec![PresentStep::DrawSync, PresentStep::WaitVblank, PresentStep::Swap]
    );
    assert_eq!(fb.displayed_buffer(), 0);
}

#[test]
fn render_schedule_runs_background_then_present() {
    let mut fb = Framebuffer::new(VideoMode::NTSC, Resolution::default());
    let clear = ClearColor(Color { red: 9, green: 8, blue: 7 });
    let steps = RenderSchedule.run(&mut fb, &clear, false);
    assert_eq!(
        steps,
        vec![
            PresentStep::SetBackground(Color { red: 9, green: 8, blue: 7 }),
            PresentStep::DrawSync,
            PresentStep::WaitVblank,
            PresentStep::Swap,
        ]
    );
    let steps = RenderSchedule.run(&mut fb, &clear, true);
    assert_eq!(steps, vec![PresentStep::DrawSync, PresentStep::Swap]);
    assert_eq!(fb.displayed_buffer(), 0);
}

#[test]
fn resolution_and_layout() {
    let size: (i16, i16) = Resolution::W320xH240.into();
    assert_eq!(size, (320, 240));
    let fb = Framebuffer::new(VideoMode::PAL, Resolution::W320xH240);
    assert_eq!(fb.mode(), VideoMode::PAL);
    assert_eq!(fb.resolution(), Resolution::W320xH240);
    assert_eq!(fb.vram_layout(), ((0, 0), (0, 240), (320, 240)));
}
