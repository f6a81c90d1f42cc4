use gbcemu::interrupts::Interrupt;
use gbcemu::ppu::color::{dmg_color, GameboyRgb};
use gbcemu::ppu::frame_buffer::{FrameBuffer, LCD_HEIGHT, LCD_WIDTH};
use gbcemu::ppu::lcd::{LcdControl, LcdStat, StatMode};
use gbcemu::ppu::sprites::{sort_sprites, Sprite};
use gbcemu::ppu::vram::Vram;
use gbcemu::ppu::Ppu;
use gbcemu::video::frame_pixels;

const WHITE: GameboyRgb = GameboyRgb { red: 0xFF, green: 0xFF, blue: 0xFF };

fn sprite(y: u8, x: u8, tile_number: u8) -> Sprite {
    Sprite { y, x, tile_number, attr: 0 }
}

/// Steps by four dots until the unit enters a line.
fn run_to_line(ppu: &mut Ppu, line: u8) -> Vec<Interrupt> {
    let mut interrupts = Vec::new();
    while ppu.ly() != line {
        ppu.step(4, false, &mut interrupts);
    }
    interrupts
}

#[test]
fn beam_goes_through_the_modes_of_a_line() {
    let mut ppu = Ppu::new(false, false);
    let mut interrupts = Vec::new();
    ppu.step(4, false, &mut interrupts);
    assert_eq!(ppu.stat_mode(), 2);
    ppu.step(76, false, &mut interrupts);
    assert_eq!(ppu.stat_mode(), 3);
    ppu.step(172, false, &mut interrupts);
    assert_eq!(ppu.stat_mode(), 0);
    assert_eq!(ppu.ly(), 0);
    ppu.step(204, false, &mut interrupts);
    assert_eq!(ppu.stat_mode(), 2);
    assert_eq!(ppu.ly(), 1);
    assert!(interrupts.is_empty());
}

#[test]
fn beam_moves_at_half_pace_at_double_speed() {
    let mut ppu = Ppu::new(true, false);
    let mut interrupts = Vec::new();
    ppu.step(16, true, &mut interrupts);
    assert_eq!(ppu.dot, 8);
}

#[test]
fn blank_raises_one_interrupt_and_readies_the_frame() {
    let mut ppu = Ppu::new(false, false);
    let interrupts = run_to_line(&mut ppu, 144);
    assert_eq!(interrupts, vec![Interrupt::Vblank]);
    assert_eq!(ppu.stat_mode(), 1);
    assert!(ppu.is_frame_ready());
    assert!(ppu.frame_buffer().is_some());
    // A frame is handed out once
    assert!(!ppu.is_frame_ready());
    assert!(ppu.frame_buffer().is_none());
    assert!(run_to_line(&mut ppu, 153).is_empty());
    assert!(run_to_line(&mut ppu, 0).is_empty());
}

#[test]
fn display_that_is_off_stands_still() {
    let mut ppu = Ppu::new(false, false);
    run_to_line(&mut ppu, 10);
    ppu.write(0xFF40, 0x11);
    assert_eq!(ppu.ly(), 0);
    let mut interrupts = Vec::new();
    ppu.step(60000, false, &mut interrupts);
    assert_eq!(ppu.ly(), 0);
    assert_eq!(ppu.dot, 0);
    assert!(interrupts.is_empty());
}

#[test]
fn status_interrupt_comes_as_its_line_goes_up() {
    let mut ppu = Ppu::new(false, false);
    ppu.write(0xFF41, 0x40);
    ppu.write(0xFF45, 2);
    let interrupts = run_to_line(&mut ppu, 2);
    assert_eq!(interrupts, vec![Interrupt::LcdStat]);
    assert_eq!(ppu.read(0xFF41) & 0x04, 0x04);
    assert!(run_to_line(&mut ppu, 3).is_empty());
    assert_eq!(ppu.read(0xFF41) & 0x04, 0x00);
}

#[test]
fn status_register_shows_its_mode() {
    let mut stat = LcdStat::new();
    stat.raw = 0xF8;
    stat.show(StatMode::OamRead, true);
    assert_eq!(stat.raw, 0xFF);
    assert_eq!(stat.mode(), StatMode::OamRead);
    assert!(stat.coincidence());
    assert!(stat.ly_enabled() && stat.oam_enabled() && stat.vblank_enabled());
    assert!(stat.hblank_enabled());
}

#[test]
fn control_register_selects_maps() {
    let lcdc = LcdControl { raw: 0x91 };
    assert!(lcdc.lcd_display_enable());
    assert_eq!(lcdc.bg_tile_map(), 0x9800);
    assert_eq!(lcdc.window_tile_map(), 0x9800);
    assert!(!lcdc.bg_tile_data_select());
    assert!(lcdc.bg_priority());
    assert!(!lcdc.window_display_enable() && !lcdc.sprite_size() && !lcdc.sprite_enable());
    let lcdc = LcdControl { raw: 0x6E };
    assert_eq!(lcdc.bg_tile_map(), 0x9C00);
    assert_eq!(lcdc.window_tile_map(), 0x9C00);
    assert!(lcdc.window_display_enable() && lcdc.sprite_size() && lcdc.sprite_enable());
    assert!(lcdc.bg_tile_data_select());
}

#[test]
fn next_mode_and_its_distance() {
    let mut ppu = Ppu::new(false, false);
    let mut interrupts = Vec::new();
    ppu.step(4, false, &mut interrupts);
    let (mode, cycles) = ppu.next_mode(4, false);
    assert_eq!(mode, StatMode::OamScan);
    assert_eq!(cycles, 80);
    let (mode, cycles) = ppu.next_mode(100, true);
    assert_eq!(mode, StatMode::OamScan);
    assert_eq!(cycles, 160);
    let (mode, cycles) = ppu.next_mode(100, false);
    assert_eq!(mode, StatMode::OamRead);
    assert_eq!(cycles, 172);
}

#[test]
fn palette_index_moves_on() {
    let mut ppu = Ppu::new(true, false);
    ppu.write(0xFF68, 0x80 | 62);
    ppu.write(0xFF69, 0x11);
    ppu.write(0xFF69, 0x22);
    assert_eq!(ppu.read(0xFF68), 0x80);
    assert_eq!(ppu.bg_palette_ram[62], 0x11);
    assert_eq!(ppu.bg_palette_ram[63], 0x22);
    // Without the highest bit it stays
    ppu.write(0xFF6A, 5);
    ppu.write(0xFF6B, 0x33);
    assert_eq!(ppu.read(0xFF6A), 5);
    assert_eq!(ppu.read(0xFF6B), 0x33);
}

#[test]
fn written_picture_registers_are_read() {
    let mut ppu = Ppu::new(false, false);
    for addr in [0xFF42u16, 0xFF43, 0xFF45, 0xFF47, 0xFF48, 0xFF49, 0xFF4A, 0xFF4B] {
        ppu.write(addr, 0x5A);
        assert_eq!(ppu.read(addr), 0x5A);
    }
    // Only the switches of the status register can be written
    ppu.write(0xFF41, 0xFF);
    assert_eq!(ppu.read(0xFF41), 0xF8);
}

#[test]
fn video_memory_is_shut_while_it_is_read() {
    let mut ppu = Ppu::new(false, false);
    ppu.write(0x8000, 0x12);
    assert_eq!(ppu.read(0x8000), 0x12);
    let mut interrupts = Vec::new();
    ppu.step(80, false, &mut interrupts);
    assert_eq!(ppu.stat_mode(), 3);
    assert_eq!(ppu.read(0x8000), 0xFF);
    assert!(ppu.oam_locked());
    ppu.write(0xFE00, 0x77);
    ppu.step(172, false, &mut interrupts);
    assert_eq!(ppu.read(0x8000), 0x12);
    assert_eq!(ppu.read(0xFE00), 0x00);
    ppu.write(0xFE00, 0x77);
    assert_eq!(ppu.read(0xFE00), 0x77);
}

#[test]
fn banks_of_video_memory() {
    let mut vram = Vram::new(true);
    vram.write(0x8000, 0x11);
    vram.update_bank(1);
    assert_eq!(vram.read(0x8000), 0x00);
    vram.write(0x8000, 0x22);
    assert_eq!(vram.read_bank(0, 0x8000), 0x11);
    assert_eq!(vram.read_bank(1, 0x8000), 0x22);
    assert_eq!(vram.get_bank_slice(1, 0x8000, 2), &[0x22, 0x00]);
    // A monochrome machine has one bank
    let mut vram = Vram::new(false);
    vram.update_bank(1);
    vram.write(0x8000, 0x33);
    assert_eq!(vram.read_bank(0, 0x8000), 0x33);
}

#[test]
fn texels_are_two_bits() {
    let mut vram = Vram::new(false);
    // Second row of tile one
    vram.write(0x8012, 0b1010_0001);
    vram.write(0x8013, 0b1100_0001);
    let row: Vec<u8> = (0..8).map(|x| vram.read_tile_pixel(0, 1, x, 1)).collect();
    assert_eq!(row, vec![3, 2, 1, 0, 0, 0, 0, 3]);
}

#[test]
fn saved_video_memory_is_loaded() {
    let mut vram = Vram::new(true);
    vram.write(0x9FFF, 0x44);
    vram.update_bank(1);
    vram.write(0x8012, 0x80);
    let mut bytes = Vec::new();
    vram.save_to_bytes(&mut bytes);
    let mut pos = 0;
    let back = Vram::load_from_bytes(&bytes, &mut pos).unwrap();
    assert_eq!(pos, bytes.len());
    assert!(back.is_consistent());
    assert_eq!(back.read_bank(0, 0x9FFF), 0x44);
    assert_eq!(back.read_bank(1, 0x8012), 0x80);
    assert_eq!(back.read_tile_pixel(1, 1, 0, 1), 1);
}

#[test]
fn shades_and_scaling() {
    assert_eq!(dmg_color(0), GameboyRgb { red: 0xE0, green: 0xF8, blue: 0xD0 });
    assert_eq!(dmg_color(3), GameboyRgb { red: 0x08, green: 0x18, blue: 0x20 });
    let mut color = GameboyRgb { red: 31, green: 16, blue: 0 };
    color.scale_to_rgb();
    assert_eq!(color, GameboyRgb { red: 255, green: 131, blue: 0 });
    assert_eq!(GameboyRgb::white(), WHITE);
    let mut bytes = Vec::new();
    color.save_to_bytes(&mut bytes);
    assert_eq!(bytes, vec![255, 131, 0]);
    let mut pos = 0;
    assert_eq!(GameboyRgb::load_from_bytes(&bytes, &mut pos).unwrap(), color);
}

#[test]
fn scaling_keeps_the_order_of_colors() {
    let scaled = |part: u8| {
        let mut color = GameboyRgb { red: part, green: 0, blue: 0 };
        color.scale_to_rgb();
        color.red
    };
    for part in 1..32u8 {
        assert!(scaled(part - 1) < scaled(part));
    }
    assert_eq!(scaled(0), 0);
    assert_eq!(scaled(31), 255);
}

#[test]
fn sprites_are_ordered_by_column() {
    let list = vec![sprite(0, 9, 1), sprite(0, 3, 2), sprite(0, 9, 3), sprite(0, 1, 4)];
    let sorted = sort_sprites(&list);
    let tiles: Vec<u8> = sorted.iter().map(|s| s.tile_number).collect();
    assert_eq!(tiles, vec![4, 2, 1, 3]);
}

#[test]
fn sprites_lie_between_their_edges() {
    let s = sprite(16, 8, 0);
    assert!(s.visible_on(0, 8) && s.visible_on(7, 8) && !s.visible_on(8, 8));
    assert!(s.visible_on(15, 16));
    assert!(s.covers(0) && s.covers(7) && !s.covers(8));
    // Cut at the upper edge
    let s = sprite(10, 8, 0);
    assert!(s.visible_on(0, 8) && s.visible_on(1, 8) && !s.visible_on(2, 8));
}

#[test]
fn ten_sprites_to_a_line() {
    let mut ppu = Ppu::new(false, false);
    for i in 0..40u16 {
        ppu.write(0xFE00 + 4 * i, 16);
        ppu.write(0xFE01 + 4 * i, (200 - i) as u8);
        ppu.write(0xFE02 + 4 * i, i as u8);
    }
    ppu.find_visible_sprites();
    assert_eq!(ppu.sprites.len(), 10);
    // The first ten of the table, by column
    assert_eq!(ppu.sprites[0].tile_number, 9);
    assert_eq!(ppu.sprites[9].tile_number, 0);
    // A color machine keeps the order of the table
    let mut ppu = Ppu::new(true, false);
    for i in 0..40u16 {
        ppu.write(0xFE00 + 4 * i, 16);
        ppu.write(0xFE01 + 4 * i, (200 - i) as u8);
        ppu.write(0xFE02 + 4 * i, i as u8);
    }
    ppu.find_visible_sprites();
    assert_eq!(ppu.sprites[0].tile_number, 0);
}

#[test]
fn sprites_are_added_to_those_so_far() {
    let mut ppu = Ppu::new(true, false);
    ppu.write(0xFE00, 16);
    ppu.write(0xFE02, 7);
    ppu.sprites.push(sprite(99, 5, 1));
    ppu.find_visible_sprites();
    let tiles: Vec<u8> = ppu.sprites.iter().map(|s| s.tile_number).collect();
    assert_eq!(tiles, vec![1, 7]);
    // With no room left nothing is added
    for _ in 0..8 {
        ppu.sprites.push(sprite(99, 5, 2));
    }
    ppu.find_visible_sprites();
    assert_eq!(ppu.sprites.len(), 10);
    assert_eq!(ppu.sprites[9].tile_number, 2);
    // All of them are ordered by column
    ppu.write(0xFF6C, 1);
    ppu.find_visible_sprites();
    assert_eq!(ppu.sprites[0].tile_number, 7);
    // On reading the table for a line they are found anew
    let mut interrupts = Vec::new();
    ppu.step(80, false, &mut interrupts);
    assert_eq!(ppu.stat_mode(), 3);
    assert_eq!(ppu.sprites.len(), 1);
    assert_eq!(ppu.sprites[0].tile_number, 7);
}

#[test]
fn background_line_is_drawn() {
    let mut ppu = Ppu::new(false, false);
    ppu.write(0xFF47, 0xE4);
    // Tile one: color three in its first column
    ppu.write(0x8010, 0x80);
    ppu.write(0x8011, 0x80);
    ppu.write(0x9801, 0x01);
    ppu.render_scanline();
    assert_eq!(ppu.frame_buffer.read(8, 0), dmg_color(3));
    assert_eq!(ppu.frame_buffer.read(9, 0), dmg_color(0));
    assert_eq!(ppu.frame_buffer.read(0, 0), dmg_color(0));
    // Other lines are not touched
    assert_eq!(ppu.frame_buffer.read(8, 1), WHITE);
    assert_eq!(ppu.fetch_bg_pixel_data(8, 0, 0x9800), (dmg_color(3), false, 3));
}

#[test]
fn sprite_covers_the_background() {
    let mut ppu = Ppu::new(false, false);
    ppu.write(0xFF40, 0x93);
    ppu.write(0xFF47, 0xE4);
    ppu.write(0xFF48, 0xE4);
    for row in 0..8u16 {
        ppu.write(0x8010 + 2 * row, 0xFF);
    }
    ppu.write(0xFE00, 16);
    ppu.write(0xFE01, 8 + 20);
    ppu.write(0xFE02, 1);
    ppu.find_visible_sprites();
    ppu.render_scanline();
    assert_eq!(ppu.frame_buffer.read(19, 0), dmg_color(0));
    assert_eq!(ppu.frame_buffer.read(20, 0), dmg_color(1));
    assert_eq!(ppu.frame_buffer.read(27, 0), dmg_color(1));
    assert_eq!(ppu.frame_buffer.read(28, 0), dmg_color(0));
    assert!(ppu.fetch_sprite_pixel_data(20).is_some());
    assert!(ppu.fetch_sprite_pixel_data(28).is_none());
}

#[test]
fn frame_buffer_keeps_pixels() {
    let mut frame = FrameBuffer::new();
    let red = GameboyRgb { red: 0xFF, green: 0, blue: 0 };
    frame.write(159, 143, red);
    assert_eq!(frame.read(159, 143), red);
    assert_eq!(frame.read(0, 0), WHITE);
    let mut bytes = Vec::new();
    frame.save_to_bytes(&mut bytes);
    let mut pos = 0;
    let back = FrameBuffer::load_from_bytes(&bytes, &mut pos).unwrap();
    assert_eq!(pos, bytes.len());
    assert_eq!(back.data, frame.data);
    assert_eq!(FrameBuffer::stored_end(&bytes, 0), Some(bytes.len()));
    assert_eq!(FrameBuffer::stored_end(&bytes[..bytes.len() - 1], 0), None);
}

#[test]
fn saved_picture_unit_is_loaded() {
    let mut ppu = Ppu::new(true, false);
    ppu.write(0x8123, 0x45);
    ppu.write(0xFF42, 0x12);
    ppu.write(0xFF68, 0x80);
    ppu.write(0xFF69, 0x77);
    run_to_line(&mut ppu, 20);
    let mut bytes = Vec::new();
    ppu.save_to_bytes(&mut bytes);
    assert_eq!(Ppu::stored_end(&bytes, 0), Some(bytes.len()));
    let mut pos = 0;
    let back = Ppu::load_from_bytes(&bytes, &mut pos).unwrap();
    assert_eq!(pos, bytes.len());
    assert!(back.is_consistent());
    assert_eq!(back.ly(), 20);
    assert_eq!(back.read(0xFF42), 0x12);
    assert_eq!(back.bg_palette_ram[0], 0x77);
    let mut again = Vec::new();
    back.save_to_bytes(&mut again);
    assert_eq!(again, bytes);
}

#[test]
fn texture_has_four_bytes_to_a_pixel() {
    let mut frame = FrameBuffer::new();
    frame.write(9, 1, GameboyRgb { red: 1, green: 2, blue: 3 });
    let plain = frame_pixels(&frame, false);
    assert_eq!(plain.len(), LCD_WIDTH * LCD_HEIGHT * 4);
    let at = (LCD_WIDTH + 9) * 4;
    assert_eq!(&plain[at..at + 4], &[3, 2, 1, 0xFF]);
    assert_eq!(&plain[0..4], &[0xFF; 4]);
    let outlined = frame_pixels(&frame, true);
    assert_eq!(&outlined[at..at + 4], &[3, 2, 1, 0xFF]);
    assert_eq!(&outlined[0..4], &[0x80, 0x80, 0x80, 0xFF]);
    let on_column = (LCD_WIDTH + 8) * 4;
    assert_eq!(&outlined[on_column..on_column + 4], &[0x80, 0x80, 0x80, 0xFF]);
}
