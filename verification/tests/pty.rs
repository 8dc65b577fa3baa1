use std::io::Read;

use egui_terminal::decoder::Decoder;
use egui_terminal::screen::Screen;
use egui_terminal::size::TermSize;
use portable_pty::{native_pty_system, CommandBuilder, PtySize};

fn spawn_and_read(cmd: CommandBuilder) -> (Vec<u8>, Box<dyn portable_pty::Child + Send + Sync>) {
    let pty = native_pty_system();
    let pair = pty
        .openpty(PtySize { rows: 24, cols: 80, pixel_width: 0, pixel_height: 0 })
        .expect("openpty");
    let child = pair.slave.spawn_command(cmd).expect("spawn");
    drop(pair.slave);
    let mut reader = pair.master.try_clone_reader().expect("reader");
    let mut bytes = Vec::new();
    let mut buf = [0u8; 1024];
    loop {
        match reader.read(&mut buf) {
            Ok(0) => break,
            Ok(n) => bytes.extend_from_slice(&buf[..n]),
            Err(_) => break,
        }
    }
    (bytes, child)
}

#[test]
fn spawned_command_output_reaches_the_screen() {
    // End to end: a child that prints "hello" and exits; after the stream
    // ends, the screen holds a line with the text, and the child reports an
    // exit status.
    let mut cmd = CommandBuilder::new("echo");
    cmd.arg("hello");
    let (bytes, mut child) = spawn_and_read(cmd);
    let mut d = Decoder::new();
    let acts = d.feed(&bytes);
    let mut s = Screen::new(TermSize::new(24, 80));
    s.apply_all(&acts);
    let mut found = false;
    for i in 0..24 {
        let line: String = s.line(i).iter().collect();
        if line.starts_with("hello") {
            found = true;
        }
    }
    assert!(found, "screen should hold the line printed by the child");
    let mut status = None;
    for _ in 0..1_000_000 {
        if let Ok(Some(st)) = child.try_wait() {
            status = Some(st);
            break;
        }
    }
    assert!(status.is_some(), "child should report an exit status");
}

#[test]
fn killing_an_exited_child_neither_errors_nor_hangs() {
    let cmd = CommandBuilder::new("true");
    let (_bytes, mut child) = spawn_and_read(cmd);
    // The stream has ended, so the child has exited; killing it now must
    // neither hang nor bring the session down.
    let _ = child.kill();
    let _ = child.kill();
    let status = child.wait().expect("wait after kill");
    drop(status);
}
