//! The page that the gateway serves.

use vstd::prelude::*;

verus! {

/// The document behind the gateway's root: two sliders from 0 to 1000 that
/// start at 100, and the four results. The page shows a slider's value while
/// it moves, asks the gateway to calculate when a slider is released and once
/// when the page has loaded, and says so where that call fails.
pub const PAGE: &'static str = r#"
        <!DOCTYPE html>
        <html lang="en">
        <head>
            <meta charset="UTF-8">
            <meta name="viewport" content="width=device-width, initial-scale=1.0">
            <title>Calculator</title>
            <style>
                body {
                    font-family: Arial, sans-serif;
                    margin: 20px;
                }
                .slider-container {
                    margin-bottom: 20px;
                    position: relative;
                }
                .results {
                    margin-top: 20px;
                }
                input[type="range"] {
                    width: 200px;
                }
                #num1 {
                    width: 500px;
                    position: relative;
                    top: 6.5px;
                }
                #num2 {
                    width: 500px;
                    position: relative;
                    top: 6.5px;
                }
                #error {
                    color: #b00020;
                }
            </style>
        </head>
        <body>
            <h1>Calculator</h1>
            <div class="slider-container">
                <label for="num1">Number 1:</label>
                <input type="range" id="num1" name="num1" min="0" max="1000" value="100">
                <span id="num1-value">100</span>
            </div>
            <div class="slider-container">
                <label for="num2">Number 2:</label>
                <input type="range" id="num2" name="num2" min="0" max="1000" value="100">
                <span id="num2-value">100</span>
            </div>
            <div class="results">
                <h2>Results</h2>
                <p>Addition: <span id="addition">200</span></p>
                <p>Subtraction: <span id="subtraction">0</span></p>
                <p>Multiplication: <span id="multiplication">10000</span></p>
                <p>Division: <span id="division">1</span></p>
                <p id="error" hidden></p>
            </div>
            <script>
                // Show that the results on the page are not those of the sliders
                function showError(message) {
                    const error = document.getElementById('error');
                    error.textContent = message;
                    error.hidden = false;
                }

                // Function to update results
                async function updateResults() {
                    const num1 = document.getElementById('num1').value;
                    const num2 = document.getElementById('num2').value;

                    try {
                        const response = await fetch(`/calculate?num1=${num1}&num2=${num2}`);
                        if (!response.ok) {
                            showError(`Calculation failed (${response.status}): ${await response.text()}`);
                            return;
                        }
                        const data = await response.json();

                        document.getElementById('addition').textContent = data.addition;
                        document.getElementById('subtraction').textContent = data.subtraction;
                        document.getElementById('multiplication').textContent = data.multiplication;
                        document.getElementById('division').textContent = data.division;
                        document.getElementById('error').hidden = true;
                    } catch (failure) {
                        showError(`Calculation failed: ${failure}`);
                    }
                }

                // Function to update displayed slider values
                function updateSliderValue(sliderId, valueId) {
                    const slider = document.getElementById(sliderId);
                    const value = document.getElementById(valueId);

                    // Update displayed value as slider is moved
                    slider.addEventListener('input', () => {
                        value.textContent = slider.value;
                    });

                    // Update results when slider is released
                    slider.addEventListener('change', updateResults);
                }

                // Initialize slider value updates
                updateSliderValue('num1', 'num1-value');
                updateSliderValue('num2', 'num2-value');

                // Initialize results on page load
                document.addEventListener('DOMContentLoaded', () => {
                    // Set initial values for sliders and displayed text
                    document.getElementById('num1-value').textContent = document.getElementById('num1').value;
                    document.getElementById('num2-value').textContent = document.getElementById('num2').value;

                    // Update results with default values
                    updateResults();
                });
            </script>
        </body>
        </html>
        "#;

/// The document that the gateway answers a request for its root with.
pub fn index() -> (page: &'static str)
    ensures
        page@ == PAGE@,
{
    PAGE
}

} // verus!
