//! The page from which a file can be uploaded by hand.

use vstd::prelude::*;
use crate::config::AppConfig;

verus! {

/// The upload page.
pub const UPLOAD_PAGE: &'static str = r#"<!doctype html>
<html lang=\"en\">
<head>
  <meta charset=\"utf-8\" />
  <title>newtemp.sh upload</title>
  <style>
    :root {
      color-scheme: light dark;
      --bg: linear-gradient(135deg, #0d1117 0%, #161b22 50%, #0a66c2 100%);
      --card: rgba(255, 255, 255, 0.08);
      --border: rgba(255, 255, 255, 0.18);
      --text: #f6f8fa;
      --muted: #c9d1d9;
      --accent: #58a6ff;
    }
    * { box-sizing: border-box; }
    body {
      margin: 0;
      min-height: 100vh;
      font-family: 'Inter', 'Segoe UI', system-ui, -apple-system, sans-serif;
      background: var(--bg);
      color: var(--text);
      display: flex;
      align-items: center;
      justify-content: center;
      padding: 2.5rem 1.5rem;
    }
    .shell {
      width: min(720px, 100%);
      background: var(--card);
      border: 1px solid var(--border);
      border-radius: 18px;
      box-shadow: 0 20px 60px rgba(0, 0, 0, 0.35);
      backdrop-filter: blur(18px);
      padding: 1.75rem 2rem;
    }
    header { display: flex; align-items: center; gap: 0.75rem; margin-bottom: 1rem; }
    header h1 { margin: 0; font-size: 1.6rem; letter-spacing: 0.01em; }
    header span { padding: 0.35rem 0.65rem; border-radius: 999px; background: rgba(88, 166, 255, 0.15); border: 1px solid var(--border); color: var(--accent); font-weight: 600; font-size: 0.85rem; }
    p { color: var(--muted); margin: 0.25rem 0 1rem; }
    form { margin-top: 1rem; display: grid; gap: 0.9rem; }
    label { font-weight: 600; letter-spacing: 0.01em; }
    input[type=\"password\"], input[type=\"file\"] {
      width: 100%;
      font-size: 1rem;
      padding: 0.65rem 0.75rem;
      border-radius: 12px;
      border: 1px solid var(--border);
      background: rgba(255, 255, 255, 0.06);
      color: var(--text);
    }
    input[type=\"file\"] { padding: 0.5rem 0.75rem; }
    .file-row { display: flex; gap: 0.6rem; align-items: center; }
    #file-name { flex: 1; padding: 0.65rem 0.75rem; border-radius: 12px; background: rgba(255, 255, 255, 0.06); border: 1px dashed var(--border); color: var(--muted); min-height: 44px; display: flex; align-items: center; }
    button {
      font-size: 1rem;
      font-weight: 700;
      padding: 0.75rem 1rem;
      border-radius: 12px;
      border: none;
      cursor: pointer;
      transition: transform 120ms ease, box-shadow 120ms ease, opacity 120ms ease;
    }
    #file-button { background: rgba(88, 166, 255, 0.2); color: var(--accent); border: 1px solid var(--border); }
    #submit { background: linear-gradient(120deg, #4096ff, #58a6ff); color: #0b1221; box-shadow: 0 14px 40px rgba(88, 166, 255, 0.35); }
    button:active { transform: translateY(1px); }
    #result { margin-top: 1.25rem; }
    pre { background: rgba(0, 0, 0, 0.35); padding: 0.85rem; border-radius: 12px; overflow: auto; border: 1px solid var(--border); }
  </style>
</head>
<body>
  <div class=\"shell\">
    <header>
      <h1>newtemp.sh uploader</h1>
      <span>Secure</span>
    </header>
    <p>Upload a file with the shared password to receive a download link instantly.</p>
    <form id=\"upload-form\">
      <div>
        <label for=\"password\">Upload password</label>
        <input id=\"password\" name=\"password\" type=\"password\" required placeholder=\"Enter the upload password\" />
      </div>
      <div>
        <label for=\"file\">Choose a file</label>
        <div class=\"file-row\">
          <input id=\"file\" name=\"file\" type=\"file\" required />
          <button type=\"button\" id=\"file-button\">Browse</button>
        </div>
        <div id=\"file-name\">No file chosen yet</div>
      </div>
      <button type=\"submit\" id=\"submit\">Upload &amp; get link</button>
    </form>
    <div id=\"result\"></div>
  </div>
  <script>
    const form = document.getElementById('upload-form');
    const result = document.getElementById('result');
    const fileInput = document.getElementById('file');
    const fileButton = document.getElementById('file-button');
    const fileName = document.getElementById('file-name');

    fileButton.addEventListener('click', () => fileInput.click());
    fileInput.addEventListener('change', () => {
      fileName.textContent = fileInput.files[0]?.name || 'No file chosen yet';
    });

    form.addEventListener('submit', async (e) => {
      e.preventDefault();
      const file = fileInput.files[0];
      const password = document.getElementById('password').value;
      if (!file) {
        fileName.textContent = 'Please choose a file first';
        return;
      }
      const data = new FormData();
      data.append('password', password);
      data.append('file', file);
      result.textContent = 'Uploading...';
      try {
        const response = await fetch('/upload', { method: 'POST', body: data });
        const text = await response.text();
        result.innerHTML = '<pre>' + text + '</pre>';
      } catch (err) {
        result.textContent = 'Upload failed: ' + err;
      }
    });
  </script>
</body>
</html>
"#;

/// The upload page, where the configuration has it served, and nothing where
/// it has not.
pub fn upload_page(config: &AppConfig) -> (page: Option<&'static str>)
    ensures
        page == if config.upload_page_enabled {
            Some(UPLOAD_PAGE)
        } else {
            None
        },
{
    if config.upload_page_enabled {
        Some(UPLOAD_PAGE)
    } else {
        None
    }
}

} // verus!
