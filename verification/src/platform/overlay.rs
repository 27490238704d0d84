//! The full-screen rest overlay: how its countdown is set up and how its end
//! is read.

use vstd::prelude::*;
use vstd::string::*;
use crate::text::{dec_text, push_decimal};

verus! {

/// How the overlay ended.
#[derive(Debug, Clone, Copy, PartialEq, Eq, Structural)]
pub enum OverlayEvent {
    /// It closed by itself when its countdown ran out: the rest was taken.
    Completed,
    /// It was closed early (ESC): the rest was skipped.
    Skipped,
}

/// The countdown the overlay shows: at least one second.
pub open spec fn overlay_countdown(seconds: u64) -> u64 {
    if seconds < 1 {
        1
    } else {
        seconds
    }
}

/// The event an overlay that closed after `elapsed` seconds, out of a
/// countdown of `scheduled`, stands for: a close within a second of the end
/// counts as completed, an earlier one as skipped.
pub open spec fn exit_event(elapsed: u64, scheduled: u64) -> OverlayEvent {
    if elapsed + 1 >= scheduled {
        OverlayEvent::Completed
    } else {
        OverlayEvent::Skipped
    }
}

/// The countdown the overlay shows for a rest of `seconds`.
pub fn countdown_seconds(seconds: u64) -> (s: u64)
    ensures
        s == overlay_countdown(seconds),
        s >= 1,
{
    if seconds < 1 {
        1
    } else {
        seconds
    }
}

/// Reads how an overlay ended from the time it stayed open.
pub fn classify_exit(elapsed: u64, scheduled: u64) -> (e: OverlayEvent)
    ensures
        e == exit_event(elapsed, scheduled),
{
    if scheduled == 0 || elapsed >= scheduled - 1 {
        OverlayEvent::Completed
    } else {
        OverlayEvent::Skipped
    }
}

/// The part of the overlay script before its countdown.
pub const OVERLAY_SCRIPT_HEAD: &'static str = r#"
& {
  Add-Type -AssemblyName System.Windows.Forms
  Add-Type -AssemblyName System.Drawing
  $form = New-Object System.Windows.Forms.Form
  $form.FormBorderStyle = [System.Windows.Forms.FormBorderStyle]::None
  $form.WindowState = [System.Windows.Forms.FormWindowState]::Maximized
  $form.TopMost = $true
  $form.BackColor = [System.Drawing.Color]::Black
  $form.Opacity = 0.85
  $form.KeyPreview = $true

  $label = New-Object System.Windows.Forms.Label
  $label.Dock = [System.Windows.Forms.DockStyle]::Fill
  $label.ForeColor = [System.Drawing.Color]::White
  $label.Font = New-Object System.Drawing.Font('Segoe UI', 48, [System.Drawing.FontStyle]::Bold)
  $label.TextAlign = [System.Drawing.ContentAlignment]::MiddleCenter
  $form.Controls.Add($label)

  $script:remaining = [Math]::Max(1, "#;

/// The part of the overlay script after its countdown.
pub const OVERLAY_SCRIPT_TAIL: &'static str = r#")
  $label.Text = "休息中: $script:remaining 秒`n按 ESC 跳过"

  $timer = New-Object System.Windows.Forms.Timer
  $timer.Interval = 1000
  $timer.Add_Tick({
    $script:remaining--
    if ($script:remaining -le 0) {
      $timer.Stop()
      $form.Close()
    } else {
      $label.Text = "休息中: $script:remaining 秒`n按 ESC 跳过"
    }
  })

  $form.Add_KeyDown({
    param($sender, $e)
    if ($e.KeyCode -eq [System.Windows.Forms.Keys]::Escape) {
      $timer.Stop()
      $form.Close()
    }
  })
  $form.Add_Shown({ $timer.Start() })
  [void]$form.ShowDialog()
}
"#;

/// The PowerShell script of an overlay that counts down `seconds` (at least
/// one) and closes at the end or on ESC.
pub fn overlay_script(seconds: u64) -> (s: String)
    ensures
        s@ == OVERLAY_SCRIPT_HEAD@ + dec_text(overlay_countdown(seconds) as nat)
            + OVERLAY_SCRIPT_TAIL@,
{
    let mut s = String::from_str(OVERLAY_SCRIPT_HEAD);
    push_decimal(&mut s, countdown_seconds(seconds));
    s.append(OVERLAY_SCRIPT_TAIL);
    s
}

} // verus!
